//! The text the reader puts on screen: the header path, the status line,
//! and the rows of each list (verse text wrapped to the screen width).
//! Colours and placement are left to the drawing code.

use vstd::prelude::*;
use crate::app::{App, AppView, InputMode};
use crate::model::{SearchResult, Verse};
use crate::pane::{Pane, PaneView};
use crate::jump::{jump_menu_target, parse_jump_menu};
use crate::text::{decimal, push_char, push_decimal, push_str, u32_to_string, views};

verus! {

/// The lines `textwrap::wrap(text, width)` breaks a text into.
pub uninterp spec fn wrapped_lines(text: Seq<char>, width: usize) -> Seq<Seq<char>>;

/// Breaks a text into lines of at most `width` columns.
///
/// Trusted: calls `textwrap::wrap` with the width as its options, whose
/// result depends on the text and width alone; the contract names it
/// `wrapped_lines`. Each line is copied into an owned string.
#[verifier::external_body]
pub(crate) fn wrap_text(text: &str, width: usize) -> (r: Vec<String>)
    ensures
        views(r@) == wrapped_lines(text@, width),
{
    textwrap::wrap(text, width).into_iter().map(|line| line.into_owned()).collect()
}

/// `n` spaces.
pub open spec fn spaces(n: nat) -> Seq<char> {
    Seq::new(n, |i: int| ' ')
}

/// Right-aligned in a field of `w` characters (`{:>w}`).
pub open spec fn align_right(s: Seq<char>, w: nat) -> Seq<char> {
    if s.len() < w {
        spaces((w - s.len()) as nat) + s
    } else {
        s
    }
}

/// Left-aligned in a field of `w` characters (`{:<w}`).
pub open spec fn align_left(s: Seq<char>, w: nat) -> Seq<char> {
    if s.len() < w {
        s + spaces((w - s.len()) as nat)
    } else {
        s
    }
}

/// Appends `n` spaces.
pub fn push_spaces(s: &mut String, n: usize)
    ensures
        final(s)@ == old(s)@ + spaces(n as nat),
{
    let ghost start = s@;
    let mut i: usize = 0;
    while i < n
        invariant
            i <= n,
            s@ == start + spaces(i as nat),
        decreases n - i,
    {
        push_char(s, ' ');
        i = i + 1;
        assert(s@ =~= start + spaces(i as nat));
    }
}

/// Appends `t` right-aligned in a field of `w` characters.
pub fn push_right_aligned(s: &mut String, t: &Vec<char>, w: usize)
    ensures
        final(s)@ == old(s)@ + align_right(t@, w as nat),
{
    let ghost start = s@;
    if t.len() < w {
        push_spaces(s, w - t.len());
    }
    let ghost mid = s@;
    let mut i: usize = 0;
    while i < t.len()
        invariant
            i <= t.len(),
            s@ == mid + t@.take(i as int),
        decreases t.len() - i,
    {
        push_char(s, t[i]);
        i = i + 1;
        assert(s@ =~= mid + t@.take(i as int));
    }
    assert(t@.take(t.len() as int) =~= t@);
    assert(s@ =~= start + align_right(t@, w as nat));
}

/// Appends `t` left-aligned in a field of `w` characters.
pub fn push_left_aligned(s: &mut String, t: &str, w: usize)
    ensures
        final(s)@ == old(s)@ + align_left(t@, w as nat),
{
    let ghost start = s@;
    let cs = crate::text::chars_of(t);
    push_str(s, t);
    if cs.len() < w {
        push_spaces(s, w - cs.len());
    }
    assert(s@ =~= start + align_left(t@, w as nat));
}

/// The decimal digits of a number as characters.
fn decimal_chars(n: u32) -> (r: Vec<char>)
    ensures
        r@ == decimal(n as nat),
{
    let s = crate::text::u32_to_string(n);
    crate::text::chars_of(s.as_str())
}

/// The location shown in the header: translation, then book, chapter or
/// search query of the top list.
pub open spec fn header_path(a: AppView) -> Seq<char> {
    let v = a.versions[a.current_version_idx as int];
    if a.view_stack.len() == 0 {
        Seq::empty()
    } else {
        match a.view_stack.last() {
            PaneView::Books { .. } => v + " / Books"@,
            PaneView::Chapters { book, .. } => v + " / "@ + book,
            PaneView::Verses { book, chapter, .. } => v + " / "@ + book + " / "@ + decimal(chapter as nat),
            PaneView::SearchResults { query, .. } => v + " / Search: "@ + seq!['"'] + query + seq!['"'],
        }
    }
}

/// The help line shown when there is no message.
pub open spec fn help_line() -> Seq<char> {
    "q:quit | -:back | Enter:open | t:version | /:filter | Space:jump | S:search | v:select | y:copy | C-o/i:jump-hist"@
}

/// The cursor drawn after typed text.
pub open spec fn block_cursor() -> Seq<char> {
    seq!['\u{2588}']
}

/// The status line: the typed filter or search with a cursor, a note while
/// the jump menu is open, or else the last message or the help line.
pub open spec fn status_line(a: AppView) -> Seq<char> {
    match a.input_mode {
        InputMode::Filter => "Filter: "@ + a.input_buffer + block_cursor(),
        InputMode::GlobalSearch => "Global Search: "@ + a.input_buffer + block_cursor(),
        InputMode::JumpMenu => "Jump Menu Active"@,
        InputMode::Normal => match a.message {
            Some(m) => m,
            None => help_line(),
        },
    }
}

/// The header line: the location with a space on each side, followed by the
/// number being typed, when there is one.
pub open spec fn header_line(a: AppView) -> Seq<char> {
    seq![' '] + header_path(a) + seq![' '] + (if a.number_buffer.len() > 0 {
        " | Jump: "@ + a.number_buffer
    } else {
        Seq::empty()
    })
}

/// How a piece of popup text is shown.
#[derive(Debug, Clone, Copy, PartialEq, Eq, Structural)]
pub enum Tone {
    /// Explanatory text.
    Hint,
    /// Ordinary text.
    Plain,
    /// A part of a reference that exists.
    Valid,
    /// A part of a reference that does not exist.
    Invalid,
    /// Text saying that nothing was found.
    Faint,
}

/// A piece of text with its tone.
pub struct Segment {
    pub text: String,
    pub tone: Tone,
}

/// The mathematical value of a [`Segment`].
pub ghost struct SegmentView {
    pub text: Seq<char>,
    pub tone: Tone,
}

impl View for Segment {
    type V = SegmentView;

    open spec fn view(&self) -> SegmentView {
        SegmentView { text: self.text@, tone: self.tone }
    }
}

/// A segment of text.
pub open spec fn seg(text: Seq<char>, tone: Tone) -> SegmentView {
    SegmentView { text, tone }
}

/// The tone of a part of a reference.
pub open spec fn validity_tone(valid: bool) -> Tone {
    if valid {
        Tone::Valid
    } else {
        Tone::Invalid
    }
}

/// The preview of a resolved reference: the book, then the chapter after a
/// space and the verse after a colon when they were typed, each coloured by
/// whether it exists (see [`preview_validity`]).
pub open spec fn preview_segments(
    book: Seq<char>,
    chapter: Option<u32>,
    verse: Option<u32>,
    chapters: Seq<u32>,
    verses: Seq<Verse>,
) -> Seq<SegmentView> {
    let (c_valid, v_valid) = preview_validity(chapter, verse, chapters, verses);
    seq![seg(book, Tone::Valid)] + (match chapter {
        Some(c) => seq![seg(" "@, Tone::Plain), seg(decimal(c as nat), validity_tone(c_valid))],
        None => Seq::empty(),
    }) + (match verse {
        Some(v) => seq![seg(":"@, Tone::Plain), seg(decimal(v as nat), validity_tone(v_valid))],
        None => Seq::empty(),
    })
}

/// The lines of the quick-jump popup: a hint, an empty line, the typed
/// text after a prompt with a cursor, an empty line, and then the preview
/// of the reference the text names ([`jump_menu_target`]) or "No match..."
/// when it names no book. `chapters` and `verses` are those of the named
/// book and chapter.
pub open spec fn jump_popup(a: AppView, chapters: Seq<u32>, verses: Seq<Verse>) -> Seq<Seq<SegmentView>> {
    seq![
        seq![seg("Type: <Book> [Chapter] [Verse]"@, Tone::Hint)],
        Seq::empty(),
        seq![seg("> "@ + a.jump_menu_buffer + block_cursor(), Tone::Plain)],
        Seq::empty(),
        match jump_menu_target(a.jump_menu_buffer, a.all_books) {
            Some((book, chapter, verse)) => preview_segments(book, chapter, verse, chapters, verses),
            None => seq![seg("No match..."@, Tone::Faint)],
        },
    ]
}

/// The views of the lines of a popup.
pub open spec fn popup_view(lines: Seq<Vec<Segment>>) -> Seq<Seq<SegmentView>> {
    lines.map_values(|l: Vec<Segment>| views(l@))
}

/// A segment holding a copy of `t`.
fn text_segment(t: &str, tone: Tone) -> (r: Segment)
    ensures
        r@ == seg(t@, tone),
{
    let mut text = String::new();
    push_str(&mut text, t);
    Segment { text, tone }
}

/// The segment of a chapter or verse number, coloured by its validity.
fn number_segment(n: u32, valid: bool) -> (r: Segment)
    ensures
        r@ == seg(decimal(n as nat), validity_tone(valid)),
{
    Segment { text: u32_to_string(n), tone: if valid { Tone::Valid } else { Tone::Invalid } }
}

/// One screen line of a list row: a lead-in (verse number, reference or
/// indentation) and the text after it.
pub struct RowLine {
    pub lead: String,
    pub text: String,
}

/// The mathematical value of a [`RowLine`].
pub ghost struct RowLineView {
    pub lead: Seq<char>,
    pub text: Seq<char>,
}

impl View for RowLine {
    type V = RowLineView;

    open spec fn view(&self) -> RowLineView {
        RowLineView { lead: self.lead@, text: self.text@ }
    }
}

/// The lines of a wrapped row: the first with `first_lead`, the others
/// with `rest_lead`.
pub open spec fn row_lines(lines: Seq<Seq<char>>, first_lead: Seq<char>, rest_lead: Seq<char>) -> Seq<RowLineView> {
    Seq::new(
        lines.len(),
        |i: int| RowLineView { lead: if i == 0 { first_lead } else { rest_lead }, text: lines[i] },
    )
}

/// The lead-in of a verse row: the verse number right-aligned in three
/// columns and a space.
pub open spec fn verse_lead(verse: u32) -> Seq<char> {
    align_right(decimal(verse as nat), 3) + seq![' ']
}

/// The lines of a verse row at a given width.
pub open spec fn verse_row(v: Verse, width: usize) -> Seq<RowLineView> {
    row_lines(wrapped_lines(v.text@, width), verse_lead(v.verse), spaces(4))
}

/// The reference in front of a search hit: book left-aligned in fifteen
/// columns, chapter and verse right-aligned in three.
pub open spec fn hit_lead(r: SearchResult) -> Seq<char> {
    align_left(r.book@, 15) + seq![' '] + align_right(decimal(r.chapter as nat), 3) + seq![':'] + align_right(
        decimal(r.verse as nat),
        3,
    ) + " | "@
}

/// Builds the row lines from wrapped lines.
pub fn build_rows(lines: Vec<String>, first: String, rest: String) -> (r: Vec<RowLine>)
    ensures
        views(r@) == row_lines(views(lines@), first@, rest@),
{
    let mut out: Vec<RowLine> = Vec::new();
    let mut i: usize = 0;
    while i < lines.len()
        invariant
            i <= lines.len(),
            out@.len() == i,
            forall|k: int| 0 <= k < i ==> #[trigger] out@[k]@ == row_lines(views(lines@), first@, rest@)[k],
        decreases lines.len() - i,
    {
        let lead = if i == 0 { first.clone() } else { rest.clone() };
        out.push(RowLine { lead, text: lines[i].clone() });
        i = i + 1;
    }
    assert(views(out@) =~= row_lines(views(lines@), first@, rest@));
    out
}

/// The screen lines of a verse row, its text wrapped to `width`.
pub fn verse_row_lines(v: &Verse, width: usize) -> (r: Vec<RowLine>)
    ensures
        views(r@) == verse_row(*v, width),
{
    let lines = wrap_text(v.text.as_str(), width);
    let digits = decimal_chars(v.verse);
    let mut first = String::new();
    push_right_aligned(&mut first, &digits, 3);
    push_char(&mut first, ' ');
    assert(first@ =~= verse_lead(v.verse));
    let mut rest = String::new();
    push_spaces(&mut rest, 4);
    build_rows(lines, first, rest)
}

/// The lead-in of a search hit (see [`hit_lead`]).
pub fn hit_lead_text(r: &SearchResult) -> (s: String)
    ensures
        s@ == hit_lead(*r),
{
    let mut s = String::new();
    push_left_aligned(&mut s, r.book.as_str(), 15);
    push_char(&mut s, ' ');
    let c = decimal_chars(r.chapter);
    push_right_aligned(&mut s, &c, 3);
    push_char(&mut s, ':');
    let v = decimal_chars(r.verse);
    push_right_aligned(&mut s, &v, 3);
    push_str(&mut s, " | ");
    assert(s@ =~= hit_lead(*r));
    s
}

/// The length in bytes (UTF-8) of the lead-in of a search hit, as
/// `str::len` measures it.
pub open spec fn hit_lead_bytes(r: SearchResult) -> usize {
    vstd::utf8::encode_utf8(hit_lead(r)).len() as usize
}

/// The width left for the text of a search hit after its lead-in.
pub open spec fn hit_text_width(width: usize, lead: usize) -> usize {
    if width >= lead {
        (width - lead) as usize
    } else {
        0
    }
}

/// The lines of a search hit at a given width: the text is wrapped to the
/// width left after the lead-in, and later lines are indented by as many
/// spaces as the lead-in has bytes.
pub open spec fn hit_row(r: SearchResult, width: usize) -> Seq<RowLineView> {
    row_lines(
        wrapped_lines(r.text@, hit_text_width(width, hit_lead_bytes(r))),
        hit_lead(r),
        spaces(hit_lead_bytes(r) as nat),
    )
}

/// The screen lines of a search hit (see [`hit_row`]).
pub fn hit_row_lines(r: &SearchResult, width: usize) -> (rows: Vec<RowLine>)
    ensures
        views(rows@) == hit_row(*r, width),
{
    let lead = hit_lead_text(r);
    let lead_len = lead.as_str().len();
    let w = if width >= lead_len { width - lead_len } else { 0 };
    let lines = wrap_text(r.text.as_str(), w);
    let mut rest = String::new();
    push_spaces(&mut rest, lead_len);
    build_rows(lines, lead, rest)
}

/// The text of a book row.
pub open spec fn book_row(name: Seq<char>) -> Seq<char> {
    seq![' '] + name
}

/// The text of a chapter row.
pub open spec fn chapter_row(n: u32) -> Seq<char> {
    " Chapter "@ + decimal(n as nat)
}

/// The text of a book row.
pub fn book_row_text(name: &str) -> (s: String)
    ensures
        s@ == book_row(name@),
{
    let mut s = String::new();
    push_char(&mut s, ' ');
    push_str(&mut s, name);
    assert(s@ =~= book_row(name@));
    s
}

/// The text of a chapter row.
pub fn chapter_row_text(n: u32) -> (s: String)
    ensures
        s@ == chapter_row(n),
{
    let mut s = String::new();
    push_str(&mut s, " Chapter ");
    push_decimal(&mut s, n as u64);
    s
}

/// Whether visible row `row` of a verse list lies in the visual selection
/// (between its start and the selected row, inclusive).
pub open spec fn in_visual_range(p: PaneView, row: usize) -> bool {
    match p {
        PaneView::Verses { state, visual_start, .. } => match (visual_start, state.selected) {
            (Some(start), Some(cur)) => {
                let lo = if start <= cur { start } else { cur };
                let hi = if start <= cur { cur } else { start };
                lo <= row && row <= hi
            },
            _ => false,
        },
        _ => false,
    }
}

/// Whether the chapter and verse of a jump-menu preview exist: a chapter
/// is valid when it is one of the book's chapters (or none is typed); a
/// verse is valid when the chapter is and the verse is among the verses
/// shown for it.
pub open spec fn preview_validity(
    chapter: Option<u32>,
    verse: Option<u32>,
    chapters: Seq<u32>,
    verses: Seq<Verse>,
) -> (bool, bool) {
    let c_valid = match chapter {
        Some(c) => chapters.contains(c),
        None => true,
    };
    let v_valid = match verse {
        Some(v) => c_valid && exists|i: int| 0 <= i < verses.len() && verses[i].verse == v,
        None => false,
    };
    (c_valid, v_valid)
}

/// Decides the colours of a jump-menu preview (see [`preview_validity`]).
pub fn jump_preview_validity(
    chapter: Option<u32>,
    verse: Option<u32>,
    chapters: &Vec<u32>,
    verses: &Vec<Verse>,
) -> (r: (bool, bool))
    ensures
        r == preview_validity(chapter, verse, chapters@, verses@),
{
    let mut c_valid = true;
    if let Some(c) = chapter {
        let mut found = false;
        let mut i: usize = 0;
        while i < chapters.len()
            invariant
                i <= chapters.len(),
                found == exists|k: int| 0 <= k < i && chapters@[k] == c,
            decreases chapters.len() - i,
        {
            if chapters[i] == c {
                found = true;
            }
            i = i + 1;
        }
        c_valid = found;
        proof {
            if found {
                let k = choose|k: int| 0 <= k < chapters@.len() && chapters@[k] == c;
                assert(chapters@.contains(c));
            } else {
                assert(!chapters@.contains(c));
            }
        }
    }
    let mut v_valid = false;
    if let Some(v) = verse {
        let mut found = false;
        let mut i: usize = 0;
        while i < verses.len()
            invariant
                i <= verses.len(),
                found == exists|k: int| 0 <= k < i && verses@[k].verse == v,
            decreases verses.len() - i,
        {
            if verses[i].verse == v {
                found = true;
            }
            i = i + 1;
        }
        v_valid = c_valid && found;
    }
    (c_valid, v_valid)
}

impl Pane {
    /// Whether visible row `row` is in the visual selection (see
    /// [`in_visual_range`]).
    pub fn in_visual_range(&self, row: usize) -> (b: bool)
        ensures
            b == in_visual_range(self@, row),
    {
        match self {
            Pane::Verses { state, visual_start, .. } => match (*visual_start, state.selected) {
                (Some(start), Some(cur)) => {
                    let lo = if start <= cur { start } else { cur };
                    let hi = if start <= cur { cur } else { start };
                    lo <= row && row <= hi
                },
                _ => false,
            },
            _ => false,
        }
    }
}

impl App {
    /// The location shown in the header (see [`header_path`]).
    pub fn header_path(&self) -> (s: String)
        requires
            self@.wf(),
        ensures
            s@ == header_path(self@),
    {
        let mut s = String::new();
        let n = self.view_stack.len();
        if n == 0 {
            return s;
        }
        push_str(&mut s, self.current_version());
        match &self.view_stack[n - 1] {
            Pane::Books { .. } => {
                push_str(&mut s, " / Books");
            },
            Pane::Chapters { book, .. } => {
                push_str(&mut s, " / ");
                push_str(&mut s, book.as_str());
            },
            Pane::Verses { book, chapter, .. } => {
                push_str(&mut s, " / ");
                push_str(&mut s, book.as_str());
                push_str(&mut s, " / ");
                push_decimal(&mut s, *chapter as u64);
            },
            Pane::SearchResults { query, .. } => {
                push_str(&mut s, " / Search: ");
                push_char(&mut s, '"');
                push_str(&mut s, query.as_str());
                push_char(&mut s, '"');
            },
        }
        assert(s@ =~= header_path(self@));
        s
    }

    /// The header line (see [`header_line`]).
    pub fn header_text(&self) -> (s: String)
        requires
            self@.wf(),
        ensures
            s@ == header_line(self@),
    {
        let mut s = String::new();
        push_char(&mut s, ' ');
        let path = self.header_path();
        push_str(&mut s, path.as_str());
        push_char(&mut s, ' ');
        if !self.number_buffer.as_str().is_empty() {
            push_str(&mut s, " | Jump: ");
            push_str(&mut s, self.number_buffer.as_str());
        }
        assert(s@ =~= header_line(self@));
        s
    }

    /// The lines of the quick-jump popup (see [`jump_popup`]). The caller
    /// passes the chapters of the book the typed text names and the verses
    /// of the typed chapter (chapter 1 when none is typed).
    pub fn jump_popup_lines(&self, chapters: &Vec<u32>, verses: &Vec<Verse>) -> (r: Vec<Vec<Segment>>)
        ensures
            popup_view(r@) == jump_popup(self@, chapters@, verses@),
    {
        let mut hint: Vec<Segment> = Vec::new();
        hint.push(text_segment("Type: <Book> [Chapter] [Verse]", Tone::Hint));
        let mut prompt_text = String::new();
        push_str(&mut prompt_text, "> ");
        push_str(&mut prompt_text, self.jump_menu_buffer.as_str());
        push_char(&mut prompt_text, '\u{2588}');
        let mut prompt: Vec<Segment> = Vec::new();
        prompt.push(Segment { text: prompt_text, tone: Tone::Plain });
        let mut preview: Vec<Segment> = Vec::new();
        match parse_jump_menu(self) {
            None => {
                preview.push(text_segment("No match...", Tone::Faint));
            },
            Some((book, chapter, verse)) => {
                let (c_valid, v_valid) = jump_preview_validity(chapter, verse, chapters, verses);
                preview.push(Segment { text: book, tone: Tone::Valid });
                if let Some(c) = chapter {
                    preview.push(text_segment(" ", Tone::Plain));
                    preview.push(number_segment(c, c_valid));
                }
                if let Some(v) = verse {
                    preview.push(text_segment(":", Tone::Plain));
                    preview.push(number_segment(v, v_valid));
                }
            },
        }
        assert(views(preview@) =~= match jump_menu_target(self@.jump_menu_buffer, self@.all_books) {
            Some((book, chapter, verse)) => preview_segments(book, chapter, verse, chapters@, verses@),
            None => seq![seg("No match..."@, Tone::Faint)],
        });
        let ghost want = jump_popup(self@, chapters@, verses@);
        assert(views(hint@) =~= want[0]);
        assert(prompt@[0]@.text =~= "> "@ + self@.jump_menu_buffer + block_cursor());
        assert(views(prompt@) =~= want[2]);
        let mut lines: Vec<Vec<Segment>> = Vec::new();
        lines.push(hint);
        lines.push(Vec::new());
        lines.push(prompt);
        lines.push(Vec::new());
        lines.push(preview);
        assert(views(lines@[1]@) =~= want[1]);
        assert(views(lines@[3]@) =~= want[3]);
        assert(popup_view(lines@) =~= want);
        lines
    }

    /// The status line (see [`status_line`]).
    pub fn status_text(&self) -> (s: String)
        ensures
            s@ == status_line(self@),
    {
        let mut s = String::new();
        match self.input_mode {
            InputMode::Filter => {
                push_str(&mut s, "Filter: ");
                push_str(&mut s, self.input_buffer.as_str());
                push_char(&mut s, '\u{2588}');
            },
            InputMode::GlobalSearch => {
                push_str(&mut s, "Global Search: ");
                push_str(&mut s, self.input_buffer.as_str());
                push_char(&mut s, '\u{2588}');
            },
            InputMode::JumpMenu => {
                push_str(&mut s, "Jump Menu Active");
            },
            InputMode::Normal => {
                match &self.message {
                    Some(m) => {
                        push_str(&mut s, m.as_str());
                    },
                    None => {
                        push_str(
                            &mut s,
                            "q:quit | -:back | Enter:open | t:version | /:filter | Space:jump | S:search | v:select | y:copy | C-o/i:jump-hist",
                        );
                    },
                }
            },
        }
        assert(s@ =~= status_line(self@));
        s
    }
}

} // verus!
