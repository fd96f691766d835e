//! The key bindings: one key press takes the reader's state to the next
//! state and names the outside work still to do (loading a list, running
//! a search, copying to the clipboard), which the caller performs.

use vstd::prelude::*;
use crate::app::{App, AppView, InputMode};
use crate::jump::{jump_menu_target, parse_jump_menu};
use crate::navigate::{Target, TargetView, enter_target};
use crate::pane::{MoveDir, Pane, PaneView, clear_op, filter_op, move_op};
use crate::text::{is_ascii_digit, lowercase, pop_char, push_char, words, split_whitespace};

verus! {

/// The key of a key press.
#[derive(Debug, Clone, Copy, PartialEq, Eq, Structural)]
pub enum KeyCode {
    Char(char),
    Enter,
    Esc,
    Backspace,
    Tab,
    BackTab,
    Up,
    Down,
    Other,
}

/// A key press: the key and whether Control was held.
#[derive(Debug, Clone, Copy)]
pub struct Key {
    pub code: KeyCode,
    pub ctrl: bool,
}

/// Outside work a key press leaves to the caller.
pub enum Effect {
    /// Nothing to do.
    Nothing,
    /// Load the chapters of `book` and open them with `push_chapters_view`.
    OpenChapters { book: String },
    /// Load the verses of a chapter, open them with `push_verses_view`, then
    /// select `verse` (when named) with `select_verse`.
    OpenVerses { book: String, chapter: u32, verse: Option<u32> },
    /// Load the chapters of `book` and the verses of `chapter`, jump there
    /// with `jump_to`, then select `verse` (when named) with `select_verse`.
    JumpTo { book: String, chapter: u32, verse: Option<u32> },
    /// Run the global search typed in the input buffer and open its hits
    /// with `perform_global_search`.
    Search,
    /// Jump to a sibling chapter (`jump_book` false) or book (true).
    Sibling { offset: isize, jump_book: bool },
    /// The translation changed: load its books and rebuild the stack with
    /// `rebuild_for_version`.
    ReloadVersion,
    /// Put `text` on the clipboard and report with `report_yank`.
    Yank { text: String, count: usize },
    /// The translation manager closed: save `preferences_text`.
    SavePreferences,
}

/// The mathematical value of an [`Effect`].
pub ghost enum EffectView {
    Nothing,
    OpenChapters { book: Seq<char> },
    OpenVerses { book: Seq<char>, chapter: u32, verse: Option<u32> },
    JumpTo { book: Seq<char>, chapter: u32, verse: Option<u32> },
    Search,
    Sibling { offset: int, jump_book: bool },
    ReloadVersion,
    Yank { text: Seq<char>, count: nat },
    SavePreferences,
}

impl View for Effect {
    type V = EffectView;

    open spec fn view(&self) -> EffectView {
        match self {
            Effect::Nothing => EffectView::Nothing,
            Effect::OpenChapters { book } => EffectView::OpenChapters { book: book@ },
            Effect::OpenVerses { book, chapter, verse } => EffectView::OpenVerses {
                book: book@,
                chapter: *chapter,
                verse: *verse,
            },
            Effect::JumpTo { book, chapter, verse } => EffectView::JumpTo {
                book: book@,
                chapter: *chapter,
                verse: *verse,
            },
            Effect::Search => EffectView::Search,
            Effect::Sibling { offset, jump_book } => EffectView::Sibling {
                offset: *offset as int,
                jump_book: *jump_book,
            },
            Effect::ReloadVersion => EffectView::ReloadVersion,
            Effect::Yank { text, count } => EffectView::Yank { text: text@, count: *count as nat },
            Effect::SavePreferences => EffectView::SavePreferences,
        }
    }
}

/// A buffer with its last character removed (unchanged when empty).
pub open spec fn popped(s: Seq<char>) -> Seq<char> {
    if s.len() > 0 {
        s.drop_last()
    } else {
        s
    }
}

/// What opening the target of Enter asks of the caller.
pub open spec fn enter_effect(a: AppView) -> EffectView {
    match enter_target(a.view_stack) {
        Some(TargetView::Chapters { book }) => EffectView::OpenChapters { book },
        Some(TargetView::Verses { book, chapter, verse }) => EffectView::OpenVerses { book, chapter, verse },
        None => EffectView::Nothing,
    }
}

/// Keys while the translation switcher is open: `Esc`, `q` or `Enter`
/// close it; `j`/`Down` and `k`/`Up` move to the next or previous visible
/// translation.
pub open spec fn popup_step(a: AppView, k: Key) -> (AppView, EffectView) {
    let c = k.code;
    if c == KeyCode::Esc || c == KeyCode::Char('q') || c == KeyCode::Enter {
        (AppView { show_version_popup: false, ..a }, EffectView::Nothing)
    } else if c == KeyCode::Char('j') || c == KeyCode::Down {
        (a.visible_switched(true).switcher_row_selected(), EffectView::ReloadVersion)
    } else if c == KeyCode::Char('k') || c == KeyCode::Up {
        (a.visible_switched(false).switcher_row_selected(), EffectView::ReloadVersion)
    } else {
        (a, EffectView::Nothing)
    }
}

/// Keys while the translation manager is open: `j`/`Down` and `k`/`Up`
/// move the cursor, `J` and `K` drag the translation under it down or up,
/// `Space` hides or shows it, and `Enter` or `Esc` close the manager and
/// ask for the choices to be saved.
pub open spec fn manager_step(a: AppView, k: Key) -> (AppView, EffectView) {
    let c = k.code;
    if c == KeyCode::Esc || c == KeyCode::Enter {
        (AppView { show_manager: false, ..a }, EffectView::SavePreferences)
    } else if c == KeyCode::Char('j') || c == KeyCode::Down {
        (a.manager_cursor_moved(true), EffectView::Nothing)
    } else if c == KeyCode::Char('k') || c == KeyCode::Up {
        (a.manager_cursor_moved(false), EffectView::Nothing)
    } else if c == KeyCode::Char('J') {
        (a.manager_dragged(true), EffectView::Nothing)
    } else if c == KeyCode::Char('K') {
        (a.manager_dragged(false), EffectView::Nothing)
    } else if c == KeyCode::Char(' ') {
        (a.manager_toggled(), EffectView::Nothing)
    } else {
        (a, EffectView::Nothing)
    }
}

/// Keys while filtering the current list: `Enter` keeps the selected row,
/// clears the filter and opens the row; `Esc` clears the filter;
/// `Backspace` and typed characters edit the filter and refilter;
/// `C-p`/`BackTab` and `C-n`/`Tab` move among the filtered rows.
pub open spec fn filter_step(a: AppView, k: Key) -> (AppView, EffectView) {
    let c = k.code;
    if c == KeyCode::Enter {
        let b = AppView { input_mode: InputMode::Normal, input_buffer: Seq::empty(), ..a }.with_top(clear_op());
        (b, enter_effect(b))
    } else if c == KeyCode::Esc {
        (
            AppView { input_mode: InputMode::Normal, input_buffer: Seq::empty(), ..a }.with_top(clear_op()),
            EffectView::Nothing,
        )
    } else if c == KeyCode::Backspace {
        let b = AppView { input_buffer: popped(a.input_buffer), ..a };
        (b.with_top(filter_op(lowercase(b.input_buffer))), EffectView::Nothing)
    } else if c == KeyCode::Char('p') && k.ctrl {
        (a.with_top(move_op(MoveDir::Up)), EffectView::Nothing)
    } else if c == KeyCode::Char('n') && k.ctrl {
        (a.with_top(move_op(MoveDir::Down)), EffectView::Nothing)
    } else if c == KeyCode::Tab {
        (a.with_top(move_op(MoveDir::Down)), EffectView::Nothing)
    } else if c == KeyCode::BackTab {
        (a.with_top(move_op(MoveDir::Up)), EffectView::Nothing)
    } else if c is Char && !k.ctrl {
        let b = AppView { input_buffer: a.input_buffer.push(c->Char_0), ..a };
        (b.with_top(filter_op(lowercase(b.input_buffer))), EffectView::Nothing)
    } else {
        (a, EffectView::Nothing)
    }
}

/// Keys while typing a global search: `Enter` runs it (an empty query only
/// leaves search mode), `Esc` cancels, `Backspace` and characters edit.
pub open spec fn search_step(a: AppView, k: Key) -> (AppView, EffectView) {
    let c = k.code;
    if c == KeyCode::Enter {
        if a.input_buffer.len() == 0 {
            (AppView { input_mode: InputMode::Normal, ..a }, EffectView::Nothing)
        } else {
            (a, EffectView::Search)
        }
    } else if c == KeyCode::Esc {
        (AppView { input_buffer: Seq::empty(), input_mode: InputMode::Normal, ..a }, EffectView::Nothing)
    } else if c == KeyCode::Backspace {
        (AppView { input_buffer: popped(a.input_buffer), ..a }, EffectView::Nothing)
    } else if c is Char {
        (AppView { input_buffer: a.input_buffer.push(c->Char_0), ..a }, EffectView::Nothing)
    } else {
        (a, EffectView::Nothing)
    }
}

/// Keys in the quick-jump menu: `Esc` closes it; `Enter` jumps to the
/// typed reference when it names a book (chapter 1 when no chapter is
/// given); `Tab` completes the book name while at most two words are
/// typed; `Backspace` and characters edit.
pub open spec fn jump_step(a: AppView, k: Key) -> (AppView, EffectView) {
    let c = k.code;
    if c == KeyCode::Esc {
        (AppView { input_mode: InputMode::Normal, jump_menu_buffer: Seq::empty(), ..a }, EffectView::Nothing)
    } else if c == KeyCode::Enter {
        match jump_menu_target(a.jump_menu_buffer, a.all_books) {
            Some((book, chap, verse)) => (
                AppView { input_mode: InputMode::Normal, jump_menu_buffer: Seq::empty(), ..a },
                EffectView::JumpTo {
                    book,
                    chapter: match chap {
                        Some(n) => n,
                        None => 1,
                    },
                    verse,
                },
            ),
            None => (a, EffectView::Nothing),
        }
    } else if c == KeyCode::Tab {
        match jump_menu_target(a.jump_menu_buffer, a.all_books) {
            Some((best, _, _)) => if words(a.jump_menu_buffer).len() <= 2 {
                (AppView { jump_menu_buffer: best.push(' '), ..a }, EffectView::Nothing)
            } else {
                (a, EffectView::Nothing)
            },
            None => (a, EffectView::Nothing),
        }
    } else if c == KeyCode::Backspace {
        (AppView { jump_menu_buffer: popped(a.jump_menu_buffer), ..a }, EffectView::Nothing)
    } else if c is Char && !k.ctrl {
        (AppView { jump_menu_buffer: a.jump_menu_buffer.push(c->Char_0), ..a }, EffectView::Nothing)
    } else {
        (a, EffectView::Nothing)
    }
}

/// The message set when visual mode starts.
pub open spec fn visual_started_message() -> Seq<char> {
    "Visual line selection started"@
}

/// The message set when visual mode is cancelled.
pub open spec fn visual_cancelled_message() -> Seq<char> {
    "Visual mode cancelled"@
}

/// `v` in a verse list: visual mode starts at the selected row, or is
/// cancelled when it was on.
pub open spec fn visual_toggled(a: AppView) -> AppView {
    if a.view_stack.len() == 0 {
        a
    } else {
        match a.view_stack.last() {
            PaneView::Verses { book, chapter, items, filtered, state, visual_start } => if visual_start is None {
                AppView {
                    message: Some(visual_started_message()),
                    ..a.with_top_pane(
                        PaneView::Verses { book, chapter, items, filtered, state, visual_start: state.selected },
                    )
                }
            } else {
                AppView {
                    message: Some(visual_cancelled_message()),
                    ..a.with_top_pane(PaneView::Verses { book, chapter, items, filtered, state, visual_start: None })
                }
            },
            _ => a,
        }
    }
}

/// The state with visual mode of a top verse list switched off.
pub open spec fn visual_cleared(a: AppView) -> AppView {
    if a.view_stack.len() == 0 {
        a
    } else {
        match a.view_stack.last() {
            PaneView::Verses { book, chapter, items, filtered, state, .. } => a.with_top_pane(
                PaneView::Verses { book, chapter, items, filtered, state, visual_start: None },
            ),
            _ => a,
        }
    }
}

/// Normal-mode commands other than the two-key ones (see the key table in
/// the project documentation).
pub open spec fn command_step(b: AppView, k: Key) -> (AppView, EffectView) {
    let c = k.code;
    if c == KeyCode::Char('q') {
        (AppView { should_quit: true, ..b }, EffectView::Nothing)
    } else if c == KeyCode::Char('-') {
        if b.view_stack.len() > 1 {
            let r = b.recorded();
            (AppView { view_stack: r.view_stack.drop_last(), ..r }.with_top(clear_op()), EffectView::Nothing)
        } else {
            (b, EffectView::Nothing)
        }
    } else if c == KeyCode::Enter {
        if b.number_buffer.len() > 0 {
            let (d, t) = b.number_jump();
            (
                d,
                match t {
                    Some((book, num)) => EffectView::OpenVerses { book, chapter: num, verse: None },
                    None => EffectView::Nothing,
                },
            )
        } else {
            let d = b.recorded().with_top(clear_op());
            (d, enter_effect(d))
        }
    } else if c == KeyCode::Char('o') && k.ctrl {
        (b.jumped_back(), EffectView::Nothing)
    } else if c == KeyCode::Char('i') && k.ctrl {
        (b.jumped_forward(), EffectView::Nothing)
    } else if c == KeyCode::Tab {
        (b.jumped_forward(), EffectView::Nothing)
    } else if c == KeyCode::Char('j') || c == KeyCode::Down {
        (b.with_top(move_op(MoveDir::Down)), EffectView::Nothing)
    } else if c == KeyCode::Char('k') || c == KeyCode::Up {
        (b.with_top(move_op(MoveDir::Up)), EffectView::Nothing)
    } else if c == KeyCode::Char('G') {
        (b.with_top(move_op(MoveDir::Bottom)), EffectView::Nothing)
    } else if c == KeyCode::Char('d') && k.ctrl {
        (b.with_top(move_op(MoveDir::PageDown)), EffectView::Nothing)
    } else if c == KeyCode::Char('u') && k.ctrl {
        (b.with_top(move_op(MoveDir::PageUp)), EffectView::Nothing)
    } else if c == KeyCode::Char('t') || c == KeyCode::Char('c') {
        (AppView { show_version_popup: true, ..b }.switcher_row_selected(), EffectView::Nothing)
    } else if c == KeyCode::Char('T') {
        (b.manager_opened(), EffectView::Nothing)
    } else if c == KeyCode::Char('/') {
        (AppView { input_mode: InputMode::Filter, input_buffer: Seq::empty(), ..b }, EffectView::Nothing)
    } else if c == KeyCode::Char('S') || c == KeyCode::Char('?') {
        (AppView { input_mode: InputMode::GlobalSearch, input_buffer: Seq::empty(), ..b }, EffectView::Nothing)
    } else if c == KeyCode::Char(' ') {
        (AppView { input_mode: InputMode::JumpMenu, jump_menu_buffer: Seq::empty(), ..b }, EffectView::Nothing)
    } else if c is Char && is_ascii_digit(c->Char_0) {
        (AppView { number_buffer: b.number_buffer.push(c->Char_0), ..b }, EffectView::Nothing)
    } else if c == KeyCode::Char('v') {
        (visual_toggled(b), EffectView::Nothing)
    } else if c == KeyCode::Char('y') {
        let (d, y) = b.yanked();
        (
            d,
            match y {
                Some((t, n)) => EffectView::Yank { text: t, count: n },
                None => EffectView::Nothing,
            },
        )
    } else if c == KeyCode::Esc {
        (visual_cleared(AppView { number_buffer: Seq::empty(), ..b }).with_top(clear_op()), EffectView::Nothing)
    } else {
        (b, EffectView::Nothing)
    }
}

/// Keys in normal mode. `g` acts when pressed twice in a row (`gg` goes to
/// the top; any other key forgets a first press); `[`/`]` jump to the
/// previous/next chapter and `{`/`}` to the previous/next book.
pub open spec fn normal_step(a: AppView, k: Key) -> (AppView, EffectView) {
    let c = k.code;
    let b = AppView { last_key_was_g: c == KeyCode::Char('g') && !a.last_key_was_g, ..a };
    if c == KeyCode::Char('g') {
        (if a.last_key_was_g { b.with_top(move_op(MoveDir::Top)) } else { b }, EffectView::Nothing)
    } else if c == KeyCode::Char('[') {
        (b, EffectView::Sibling { offset: -1, jump_book: false })
    } else if c == KeyCode::Char(']') {
        (b, EffectView::Sibling { offset: 1, jump_book: false })
    } else if c == KeyCode::Char('{') {
        (b, EffectView::Sibling { offset: -1, jump_book: true })
    } else if c == KeyCode::Char('}') {
        (b, EffectView::Sibling { offset: 1, jump_book: true })
    } else {
        command_step(b, k)
    }
}

/// One key press: the message of the previous key is cleared, then the key
/// acts according to what is open — the translation switcher, the
/// translation manager, or the current input mode.
pub open spec fn key_step(a: AppView, k: Key) -> (AppView, EffectView) {
    let a0 = AppView { message: None, ..a };
    if a0.show_version_popup {
        popup_step(a0, k)
    } else if a0.show_manager {
        manager_step(a0, k)
    } else {
        match a0.input_mode {
            InputMode::Filter => filter_step(a0, k),
            InputMode::GlobalSearch => search_step(a0, k),
            InputMode::JumpMenu => jump_step(a0, k),
            InputMode::Normal => normal_step(a0, k),
        }
    }
}


/// The effect of opening the target of Enter.
fn effect_of_target(t: Option<Target>) -> (r: Effect)
    ensures
        r@ == match t {
            Some(Target::Chapters { book }) => EffectView::OpenChapters { book: book@ },
            Some(Target::Verses { book, chapter, verse }) => EffectView::OpenVerses {
                book: book@,
                chapter,
                verse,
            },
            None => EffectView::Nothing,
        },
{
    match t {
        Some(Target::Chapters { book }) => Effect::OpenChapters { book },
        Some(Target::Verses { book, chapter, verse }) => Effect::OpenVerses { book, chapter, verse },
        None => Effect::Nothing,
    }
}

impl App {
    /// Opens the target of Enter's decision, as far as this state can.
    fn enter_effect_of(&self) -> (r: Effect)
        ensures
            r@ == enter_effect(self@),
    {
        let t = self.enter_view();
        effect_of_target(t)
    }

    /// Keys while the translation switcher is open (see [`popup_step`]).
    fn popup_key(&mut self, key: Key) -> (r: Effect)
        requires
            old(self)@.wf(),
        ensures
            (final(self)@, r@) == popup_step(old(self)@, key),
            final(self)@.wf(),
    {
        let ghost a = self@;
        let c = key.code;
        if c == KeyCode::Esc || c == KeyCode::Char('q') || c == KeyCode::Enter {
            self.show_version_popup = false;
            assert(self@ =~= popup_step(a, key).0);
            Effect::Nothing
        } else if c == KeyCode::Char('j') || c == KeyCode::Down {
            self.switch_visible_version(true);
            let row = self.switcher_row();
            self.versions_state.select(row);
            assert(self@ =~= popup_step(a, key).0);
            Effect::ReloadVersion
        } else if c == KeyCode::Char('k') || c == KeyCode::Up {
            self.switch_visible_version(false);
            let row = self.switcher_row();
            self.versions_state.select(row);
            assert(self@ =~= popup_step(a, key).0);
            Effect::ReloadVersion
        } else {
            Effect::Nothing
        }
    }

    /// Keys while the translation manager is open (see [`manager_step`]).
    fn manager_key(&mut self, key: Key) -> (r: Effect)
        requires
            old(self)@.wf(),
        ensures
            (final(self)@, r@) == manager_step(old(self)@, key),
            final(self)@.wf(),
    {
        let c = key.code;
        if c == KeyCode::Esc || c == KeyCode::Enter {
            self.show_manager = false;
            return Effect::SavePreferences;
        } else if c == KeyCode::Char('j') || c == KeyCode::Down {
            self.move_manager_cursor(true);
        } else if c == KeyCode::Char('k') || c == KeyCode::Up {
            self.move_manager_cursor(false);
        } else if c == KeyCode::Char('J') {
            self.drag_version(true);
        } else if c == KeyCode::Char('K') {
            self.drag_version(false);
        } else if c == KeyCode::Char(' ') {
            self.toggle_version_hidden();
        }
        Effect::Nothing
    }

    /// Keys while filtering (see [`filter_step`]).
    fn filter_key(&mut self, key: Key) -> (r: Effect)
        requires
            old(self)@.wf(),
        ensures
            (final(self)@, r@) == filter_step(old(self)@, key),
            final(self)@.wf(),
    {
        let ghost a = self@;
        let c = key.code;
        if c == KeyCode::Enter {
            self.input_mode = InputMode::Normal;
            self.input_buffer = String::new();
            self.clear_current_filter();
            self.enter_effect_of()
        } else if c == KeyCode::Esc {
            self.input_mode = InputMode::Normal;
            self.input_buffer = String::new();
            self.clear_current_filter();
            Effect::Nothing
        } else if c == KeyCode::Backspace {
            let _ = pop_char(&mut self.input_buffer);
            self.update_filter();
            Effect::Nothing
        } else if c == KeyCode::Char('p') && key.ctrl {
            self.move_cursor(MoveDir::Up);
            Effect::Nothing
        } else if c == KeyCode::Char('n') && key.ctrl {
            self.move_cursor(MoveDir::Down);
            Effect::Nothing
        } else if c == KeyCode::Tab {
            self.move_cursor(MoveDir::Down);
            Effect::Nothing
        } else if c == KeyCode::BackTab {
            self.move_cursor(MoveDir::Up);
            Effect::Nothing
        } else {
            match c {
                KeyCode::Char(ch) => {
                    if !key.ctrl {
                        push_char(&mut self.input_buffer, ch);
                        self.update_filter();
                    }
                    Effect::Nothing
                },
                _ => Effect::Nothing,
            }
        }
    }

    /// Keys while typing a global search (see [`search_step`]).
    fn search_key(&mut self, key: Key) -> (r: Effect)
        requires
            old(self)@.wf(),
        ensures
            (final(self)@, r@) == search_step(old(self)@, key),
            final(self)@.wf(),
    {
        let ghost a = self@;
        let c = key.code;
        if c == KeyCode::Enter {
            if self.input_buffer.as_str().is_empty() {
                self.input_mode = InputMode::Normal;
                Effect::Nothing
            } else {
                Effect::Search
            }
        } else if c == KeyCode::Esc {
            self.input_buffer = String::new();
            self.input_mode = InputMode::Normal;
            Effect::Nothing
        } else if c == KeyCode::Backspace {
            let _ = pop_char(&mut self.input_buffer);
            Effect::Nothing
        } else {
            match c {
                KeyCode::Char(ch) => {
                    push_char(&mut self.input_buffer, ch);
                    Effect::Nothing
                },
                _ => Effect::Nothing,
            }
        }
    }

    /// Keys in the quick-jump menu (see [`jump_step`]).
    fn jump_key(&mut self, key: Key) -> (r: Effect)
        requires
            old(self)@.wf(),
        ensures
            (final(self)@, r@) == jump_step(old(self)@, key),
            final(self)@.wf(),
    {
        let ghost a = self@;
        let c = key.code;
        if c == KeyCode::Esc {
            self.input_mode = InputMode::Normal;
            self.jump_menu_buffer = String::new();
            Effect::Nothing
        } else if c == KeyCode::Enter {
            match parse_jump_menu(self) {
                Some((book, chap, verse)) => {
                    self.input_mode = InputMode::Normal;
                    self.jump_menu_buffer = String::new();
                    let chapter = match chap {
                        Some(n) => n,
                        None => 1,
                    };
                    Effect::JumpTo { book, chapter, verse }
                },
                None => Effect::Nothing,
            }
        } else if c == KeyCode::Tab {
            match parse_jump_menu(self) {
                Some((best, _, _)) => {
                    let parts = split_whitespace(self.jump_menu_buffer.as_str());
                    if parts.len() <= 2 {
                        let mut b = best;
                        push_char(&mut b, ' ');
                        self.jump_menu_buffer = b;
                    }
                    Effect::Nothing
                },
                None => Effect::Nothing,
            }
        } else if c == KeyCode::Backspace {
            let _ = pop_char(&mut self.jump_menu_buffer);
            Effect::Nothing
        } else {
            match c {
                KeyCode::Char(ch) => {
                    if !key.ctrl {
                        push_char(&mut self.jump_menu_buffer, ch);
                    }
                    Effect::Nothing
                },
                _ => Effect::Nothing,
            }
        }
    }

    /// `v` in a verse list (see [`visual_toggled`]).
    fn toggle_visual(&mut self)
        requires
            old(self)@.wf(),
        ensures
            final(self)@ == visual_toggled(old(self)@),
            final(self)@.wf(),
    {
        let ghost a = self@;
        if self.view_stack.len() == 0 {
            return;
        }
        let top = self.view_stack.pop().unwrap();
        assert(top@ == a.view_stack.last());
        assert(a.view_stack.last().wf());
        match top {
            Pane::Verses { book, chapter, items, filtered, state, visual_start } => {
                if visual_start.is_none() {
                    self.view_stack.push(
                        Pane::Verses { book, chapter, items, filtered, state, visual_start: state.selected },
                    );
                    self.message = Some(String::from_str("Visual line selection started"));
                } else {
                    self.view_stack.push(
                        Pane::Verses { book, chapter, items, filtered, state, visual_start: None },
                    );
                    self.message = Some(String::from_str("Visual mode cancelled"));
                }
                assert(self@.view_stack =~= visual_toggled(a).view_stack);
                assert(self@ =~= visual_toggled(a));
            },
            other => {
                self.view_stack.push(other);
                assert(self@.view_stack =~= a.view_stack);
                assert(self@ =~= a);
            },
        }
    }

    /// Switches visual mode of a top verse list off (see [`visual_cleared`]).
    fn clear_visual(&mut self)
        requires
            old(self)@.wf(),
        ensures
            final(self)@ == visual_cleared(old(self)@),
            final(self)@.wf(),
    {
        let ghost a = self@;
        if self.view_stack.len() == 0 {
            return;
        }
        let top = self.view_stack.pop().unwrap();
        assert(top@ == a.view_stack.last());
        assert(a.view_stack.last().wf());
        match top {
            Pane::Verses { book, chapter, items, filtered, state, .. } => {
                self.view_stack.push(Pane::Verses { book, chapter, items, filtered, state, visual_start: None });
                assert(self@.view_stack =~= visual_cleared(a).view_stack);
                assert(self@ =~= visual_cleared(a));
            },
            other => {
                self.view_stack.push(other);
                assert(self@.view_stack =~= a.view_stack);
                assert(self@ =~= a);
            },
        }
    }

    /// Goes up one level (`-`): the position is saved, the top list is
    /// closed and the filter of the list below is cleared.
    fn go_back(&mut self)
        requires
            old(self)@.wf(),
            old(self)@.view_stack.len() > 1,
        ensures
            final(self)@ == ({
                let r = old(self)@.recorded();
                AppView { view_stack: r.view_stack.drop_last(), ..r }.with_top(clear_op())
            }),
            final(self)@.wf(),
    {
        let ghost a = self@;
        self.record_jump();
        let ghost r = self@;
        let _ = self.view_stack.pop();
        assert(self@ =~= AppView { view_stack: r.view_stack.drop_last(), ..r });
        assert forall|i: int| 0 <= i < self@.view_stack.len() implies (#[trigger] self@.view_stack[i]).wf() by {
            assert(self@.view_stack[i] == r.view_stack[i]);
        }
        self.clear_current_filter();
    }

    /// Normal-mode commands other than the two-key ones (see [`command_step`]).
    fn command_key(&mut self, key: Key) -> (r: Effect)
        requires
            old(self)@.wf(),
        ensures
            (final(self)@, r@) == command_step(old(self)@, key),
            final(self)@.wf(),
    {
        let ghost a = self@;
        let c = key.code;
        if c == KeyCode::Char('q') {
            self.should_quit = true;
            Effect::Nothing
        } else if c == KeyCode::Char('-') {
            if self.view_stack.len() > 1 {
                self.go_back();
            }
            Effect::Nothing
        } else if c == KeyCode::Enter {
            if !self.number_buffer.as_str().is_empty() {
                match self.process_number_jump() {
                    Some((book, num)) => Effect::OpenVerses { book, chapter: num, verse: None },
                    None => Effect::Nothing,
                }
            } else {
                self.record_jump();
                self.clear_current_filter();
                self.enter_effect_of()
            }
        } else if c == KeyCode::Char('o') && key.ctrl {
            self.jump_backward();
            Effect::Nothing
        } else if c == KeyCode::Char('i') && key.ctrl {
            self.jump_forward();
            Effect::Nothing
        } else if c == KeyCode::Tab {
            self.jump_forward();
            Effect::Nothing
        } else if c == KeyCode::Char('j') || c == KeyCode::Down {
            self.move_cursor(MoveDir::Down);
            Effect::Nothing
        } else if c == KeyCode::Char('k') || c == KeyCode::Up {
            self.move_cursor(MoveDir::Up);
            Effect::Nothing
        } else if c == KeyCode::Char('G') {
            self.move_cursor(MoveDir::Bottom);
            Effect::Nothing
        } else if c == KeyCode::Char('d') && key.ctrl {
            self.move_cursor(MoveDir::PageDown);
            Effect::Nothing
        } else if c == KeyCode::Char('u') && key.ctrl {
            self.move_cursor(MoveDir::PageUp);
            Effect::Nothing
        } else if c == KeyCode::Char('t') || c == KeyCode::Char('c') {
            self.show_version_popup = true;
            let row = self.switcher_row();
            self.versions_state.select(row);
            assert(self@ =~= command_step(a, key).0);
            Effect::Nothing
        } else if c == KeyCode::Char('T') {
            self.open_manager();
            Effect::Nothing
        } else if c == KeyCode::Char('/') {
            self.input_mode = InputMode::Filter;
            self.input_buffer = String::new();
            Effect::Nothing
        } else if c == KeyCode::Char('S') || c == KeyCode::Char('?') {
            self.input_mode = InputMode::GlobalSearch;
            self.input_buffer = String::new();
            Effect::Nothing
        } else if c == KeyCode::Char(' ') {
            self.input_mode = InputMode::JumpMenu;
            self.jump_menu_buffer = String::new();
            Effect::Nothing
        } else if c == KeyCode::Char('v') {
            self.toggle_visual();
            Effect::Nothing
        } else if c == KeyCode::Char('y') {
            match self.yank_selection() {
                Some((text, count)) => Effect::Yank { text, count },
                None => Effect::Nothing,
            }
        } else if c == KeyCode::Esc {
            self.number_buffer = String::new();
            self.clear_visual();
            self.clear_current_filter();
            Effect::Nothing
        } else {
            match c {
                KeyCode::Char(ch) => {
                    if '0' <= ch && ch <= '9' {
                        push_char(&mut self.number_buffer, ch);
                    }
                    Effect::Nothing
                },
                _ => Effect::Nothing,
            }
        }
    }

    /// Keys in normal mode (see [`normal_step`]).
    fn normal_key(&mut self, key: Key) -> (r: Effect)
        requires
            old(self)@.wf(),
        ensures
            (final(self)@, r@) == normal_step(old(self)@, key),
            final(self)@.wf(),
    {
        let ghost a = self@;
        let c = key.code;
        let was_g = self.last_key_was_g;
        self.last_key_was_g = c == KeyCode::Char('g') && !was_g;
        if c == KeyCode::Char('g') {
            if was_g {
                self.move_cursor(MoveDir::Top);
            }
            Effect::Nothing
        } else if c == KeyCode::Char('[') {
            Effect::Sibling { offset: -1, jump_book: false }
        } else if c == KeyCode::Char(']') {
            Effect::Sibling { offset: 1, jump_book: false }
        } else if c == KeyCode::Char('{') {
            Effect::Sibling { offset: -1, jump_book: true }
        } else if c == KeyCode::Char('}') {
            Effect::Sibling { offset: 1, jump_book: true }
        } else {
            self.command_key(key)
        }
    }

    /// Handles one key press (see [`key_step`]) and returns the outside work
    /// the caller must do next.
    pub fn handle_key(&mut self, key: Key) -> (r: Effect)
        requires
            old(self)@.wf(),
        ensures
            final(self)@ == key_step(old(self)@, key).0,
            r@ == key_step(old(self)@, key).1,
            final(self)@.wf(),
    {
        self.message = None;
        if self.show_version_popup {
            self.popup_key(key)
        } else if self.show_manager {
            self.manager_key(key)
        } else {
            match self.input_mode {
                InputMode::Filter => self.filter_key(key),
                InputMode::GlobalSearch => self.search_key(key),
                InputMode::JumpMenu => self.jump_key(key),
                InputMode::Normal => self.normal_key(key),
            }
        }
    }
}

} // verus!
