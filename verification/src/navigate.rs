//! Where the reader goes next: the list opened by Enter, and the targets of
//! the sibling jumps `[`, `]` (previous / next chapter, crossing book
//! boundaries) and `{`, `}` (previous / next book).

use vstd::prelude::*;
use crate::app::App;
use crate::pane::{Pane, PaneView, first_index, lemma_first_index_found, lemma_first_index_none};
use crate::text::{str_eq, views};

verus! {

/// A list to open.
pub enum Target {
    Chapters { book: String },
    Verses { book: String, chapter: u32, verse: Option<u32> },
}

/// The mathematical value of a [`Target`].
pub ghost enum TargetView {
    Chapters { book: Seq<char> },
    Verses { book: Seq<char>, chapter: u32, verse: Option<u32> },
}

impl View for Target {
    type V = TargetView;

    open spec fn view(&self) -> TargetView {
        match self {
            Target::Chapters { book } => TargetView::Chapters { book: book@ },
            Target::Verses { book, chapter, verse } => TargetView::Verses {
                book: book@,
                chapter: *chapter,
                verse: *verse,
            },
        }
    }
}

/// The list Enter opens from the top of `stack`: a book's chapters from a
/// book list, a chapter's verses from a chapter list, and from a search hit
/// the verses of its chapter with the hit's verse to be selected. Nothing
/// when no valid row is selected or the top is a verse list.
pub open spec fn enter_target(stack: Seq<PaneView>) -> Option<TargetView> {
    if stack.len() == 0 {
        None
    } else {
        match stack.last() {
            PaneView::Books { items, filtered, state } => match state.selected {
                Some(i) => if i < filtered.len() && filtered[i as int] < items.len() {
                    Some(TargetView::Chapters { book: items[filtered[i as int] as int] })
                } else {
                    None
                },
                None => None,
            },
            PaneView::Chapters { book, items, filtered, state } => match state.selected {
                Some(i) => if i < filtered.len() && filtered[i as int] < items.len() {
                    Some(TargetView::Verses { book, chapter: items[filtered[i as int] as int], verse: None })
                } else {
                    None
                },
                None => None,
            },
            PaneView::SearchResults { items, state, .. } => match state.selected {
                Some(i) => if i < items.len() {
                    Some(
                        TargetView::Verses {
                            book: items[i as int].book,
                            chapter: items[i as int].chapter,
                            verse: Some(items[i as int].verse),
                        },
                    )
                } else {
                    None
                },
                None => None,
            },
            PaneView::Verses { .. } => None,
        }
    }
}

/// The book and chapter a sibling jump starts from: the nearest verse list
/// from the top of the stack gives its chapter, and a nearer chapter list
/// gives chapter 1 of its book.
pub open spec fn sibling_origin(stack: Seq<PaneView>) -> Option<(Seq<char>, u32)>
    decreases stack.len(),
{
    if stack.len() == 0 {
        None
    } else {
        match stack.last() {
            PaneView::Verses { book, chapter, .. } => Some((book, chapter)),
            PaneView::Chapters { book, .. } => Some((book, 1u32)),
            _ => sibling_origin(stack.drop_last()),
        }
    }
}

/// A book index moved by `offset` and kept within `0..n`.
pub open spec fn clamped_index(b: int, offset: int, n: int) -> int {
    let t = b + offset;
    if t < 0 {
        0
    } else if t > n - 1 {
        n - 1
    } else {
        t
    }
}

/// Where a chapter jump lands.
#[derive(Debug, Clone, Copy)]
pub enum ChapterStep {
    /// The chapter is not in its book's list: stay on it.
    Keep,
    /// Another chapter of the same book.
    Chapter(u32),
    /// The last chapter of the book at this index (chapter 1 when it has none).
    PreviousBook(usize),
    /// Chapter 1 of the book at this index.
    NextBook(usize),
}

/// The predicate "is chapter `chapter`".
pub open spec fn is_chapter(chapter: u32) -> spec_fn(u32) -> bool {
    |c: u32| c == chapter
}

/// A chapter jump by `offset` from `chapter` in the book at index `b` of a
/// list of `n` books whose chapters are `chapters`: within the book when
/// the new position is in it, else to the end of the previous book or the
/// start of the next (staying at the first or last book).
pub open spec fn chapter_step_spec(chapters: Seq<u32>, chapter: u32, b: int, offset: int, n: int) -> ChapterStep {
    match first_index(chapters, is_chapter(chapter)) {
        None => ChapterStep::Keep,
        Some(c) => {
            let t = c + offset;
            if t < 0 {
                ChapterStep::PreviousBook((if b >= 1 { b - 1 } else { 0 }) as usize)
            } else if t >= chapters.len() {
                ChapterStep::NextBook((if b + 1 <= n - 1 { b + 1 } else { n - 1 }) as usize)
            } else {
                ChapterStep::Chapter(chapters[t])
            }
        },
    }
}

/// The chapter a jump to the end of a book lands on.
pub open spec fn last_chapter(chapters: Seq<u32>) -> u32 {
    if chapters.len() == 0 {
        1
    } else {
        chapters.last()
    }
}

/// The position of `book` in `books`.
pub fn book_position(books: &Vec<String>, book: &str) -> (r: Option<usize>)
    ensures
        r matches Some(i) ==> first_index(views(books@), |b: Seq<char>| b == book@) == Some(i as nat)
            && i < books@.len(),
        r is None ==> first_index(views(books@), |b: Seq<char>| b == book@) is None,
{
    let ghost bv = views(books@);
    let ghost p = |b: Seq<char>| b == book@;
    let mut i: usize = 0;
    while i < books.len()
        invariant
            i <= books.len(),
            bv == views(books@),
            p == (|b: Seq<char>| b == book@),
            forall|k: int| 0 <= k < i ==> !p(#[trigger] bv[k]),
        decreases books.len() - i,
    {
        if str_eq(books[i].as_str(), book) {
            proof {
                lemma_first_index_found(bv, p, i as int);
            }
            return Some(i);
        }
        i = i + 1;
    }
    proof {
        lemma_first_index_none(bv, p);
    }
    None
}

/// The book index a book jump lands on (see [`clamped_index`]).
pub fn clamp_book_index(b: usize, offset: isize, n: usize) -> (r: usize)
    requires
        b < n,
    ensures
        r == clamped_index(b as int, offset as int, n as int),
        r < n,
{
    let t: i128 = b as i128 + offset as i128;
    if t < 0 {
        0
    } else if t > (n - 1) as i128 {
        n - 1
    } else {
        t as usize
    }
}

/// Where a chapter jump lands (see [`chapter_step_spec`]).
pub fn chapter_step(chapters: &Vec<u32>, chapter: u32, b: usize, offset: isize, n: usize) -> (r: ChapterStep)
    requires
        b < n,
    ensures
        r == chapter_step_spec(chapters@, chapter, b as int, offset as int, n as int),
        r matches ChapterStep::PreviousBook(t) ==> t < n,
        r matches ChapterStep::NextBook(t) ==> t < n,
{
    let ghost p = is_chapter(chapter);
    let mut i: usize = 0;
    while i < chapters.len()
        invariant
            i <= chapters.len(),
            b < n,
            p == is_chapter(chapter),
            forall|k: int| 0 <= k < i ==> !p(#[trigger] chapters@[k]),
        decreases chapters.len() - i,
    {
        if chapters[i] == chapter {
            proof {
                lemma_first_index_found(chapters@, p, i as int);
            }
            let t: i128 = i as i128 + offset as i128;
            if t < 0 {
                return ChapterStep::PreviousBook(if b >= 1 { b - 1 } else { 0 });
            } else if t >= chapters.len() as i128 {
                return ChapterStep::NextBook(if b + 1 <= n - 1 { b + 1 } else { n - 1 });
            } else {
                return ChapterStep::Chapter(chapters[t as usize]);
            }
        }
        i = i + 1;
    }
    proof {
        lemma_first_index_none(chapters@, p);
    }
    ChapterStep::Keep
}

/// The last chapter of a book, or chapter 1 when the list is empty.
pub fn last_chapter_or_first(chapters: &Vec<u32>) -> (r: u32)
    ensures
        r == last_chapter(chapters@),
{
    if chapters.len() == 0 {
        1
    } else {
        chapters[chapters.len() - 1]
    }
}

/// Where a sibling jump lands, as far as the lists at hand decide it.
#[derive(Debug, Clone, Copy, PartialEq, Eq, Structural)]
pub enum SiblingLanding {
    /// This chapter of the book at this index.
    At { book: usize, chapter: u32 },
    /// The last chapter of the book at this index (chapter 1 when it has
    /// none): its chapter list must be loaded first.
    EndOf { book: usize },
}

/// The landing of a sibling jump by `offset` from `chapter` of `book`,
/// given the book list and, for a chapter jump, the book's chapters: a
/// book jump lands on chapter 1 of the book `offset` places away (kept
/// within the list); a chapter jump follows [`chapter_step_spec`], staying
/// put when the chapter is not listed. Nothing when the book is not listed.
pub open spec fn sibling_landing(
    books: Seq<Seq<char>>,
    book: Seq<char>,
    chapter: u32,
    offset: int,
    jump_book: bool,
    chapters: Seq<u32>,
) -> Option<SiblingLanding> {
    match first_index(books, |b: Seq<char>| b == book) {
        None => None,
        Some(b) => {
            let n = books.len() as int;
            Some(
                if jump_book {
                    SiblingLanding::At { book: clamped_index(b as int, offset, n) as usize, chapter: 1 }
                } else {
                    match chapter_step_spec(chapters, chapter, b as int, offset, n) {
                        ChapterStep::Keep => SiblingLanding::At { book: b as usize, chapter },
                        ChapterStep::Chapter(c) => SiblingLanding::At { book: b as usize, chapter: c },
                        ChapterStep::PreviousBook(t) => SiblingLanding::EndOf { book: t },
                        ChapterStep::NextBook(t) => SiblingLanding::At { book: t, chapter: 1 },
                    }
                },
            )
        },
    }
}

/// Decides where a sibling jump lands (see [`sibling_landing`]). The
/// chapters are those of `book`; a book jump does not look at them.
pub fn plan_sibling_jump(
    books: &Vec<String>,
    book: &str,
    chapter: u32,
    offset: isize,
    jump_book: bool,
    chapters: &Vec<u32>,
) -> (r: Option<SiblingLanding>)
    ensures
        r == sibling_landing(views(books@), book@, chapter, offset as int, jump_book, chapters@),
        r matches Some(SiblingLanding::At { book: t, .. }) ==> t < books@.len(),
        r matches Some(SiblingLanding::EndOf { book: t }) ==> t < books@.len(),
{
    let b = match book_position(books, book) {
        Some(b) => b,
        None => {
            return None;
        },
    };
    let n = books.len();
    if jump_book {
        return Some(SiblingLanding::At { book: clamp_book_index(b, offset, n), chapter: 1 });
    }
    match chapter_step(chapters, chapter, b, offset, n) {
        ChapterStep::Keep => Some(SiblingLanding::At { book: b, chapter }),
        ChapterStep::Chapter(c) => Some(SiblingLanding::At { book: b, chapter: c }),
        ChapterStep::PreviousBook(t) => Some(SiblingLanding::EndOf { book: t }),
        ChapterStep::NextBook(t) => Some(SiblingLanding::At { book: t, chapter: 1 }),
    }
}

impl App {
    /// The list Enter opens (see [`enter_target`]). The caller opens it with
    /// [`App::push_chapters_view`] or [`App::push_verses_view`], then
    /// selects the verse, if one is named, with [`App::select_verse`].
    pub fn enter_view(&self) -> (r: Option<Target>)
        ensures
            match r {
                Some(t) => enter_target(self@.view_stack) == Some(t@),
                None => enter_target(self@.view_stack) is None,
            },
    {
        let n = self.view_stack.len();
        if n == 0 {
            return None;
        }
        let top = &self.view_stack[n - 1];
        assert(top@ == self@.view_stack.last());
        match top {
            Pane::Books { items, filtered, state } => {
                if let Some(idx) = state.selected {
                    if idx < filtered.len() && filtered[idx] < items.len() {
                        return Some(Target::Chapters { book: items[filtered[idx]].clone() });
                    }
                }
                None
            },
            Pane::Chapters { book, items, filtered, state } => {
                if let Some(idx) = state.selected {
                    if idx < filtered.len() && filtered[idx] < items.len() {
                        return Some(
                            Target::Verses { book: book.clone(), chapter: items[filtered[idx]], verse: None },
                        );
                    }
                }
                None
            },
            Pane::SearchResults { items, state, .. } => {
                if let Some(idx) = state.selected {
                    if idx < items.len() {
                        let res = &items[idx];
                        return Some(
                            Target::Verses {
                                book: res.book.clone(),
                                chapter: res.chapter,
                                verse: Some(res.verse),
                            },
                        );
                    }
                }
                None
            },
            Pane::Verses { .. } => None,
        }
    }

    /// The book and chapter a sibling jump starts from (see
    /// [`sibling_origin`]).
    pub fn sibling_origin(&self) -> (r: Option<(String, u32)>)
        ensures
            match r {
                Some((b, c)) => sibling_origin(self@.view_stack) == Some((b@, c)),
                None => sibling_origin(self@.view_stack) is None,
            },
    {
        let ghost s = self@.view_stack;
        let mut i: usize = self.view_stack.len();
        assert(s.take(i as int) =~= s);
        while i > 0
            invariant
                i <= self.view_stack.len(),
                s == self@.view_stack,
                sibling_origin(s) == sibling_origin(s.take(i as int)),
            decreases i,
        {
            let p = &self.view_stack[i - 1];
            assert(s.take(i as int).last() == p@);
            assert(s.take(i as int).drop_last() =~= s.take(i - 1));
            match p {
                Pane::Verses { book, chapter, .. } => {
                    return Some((book.clone(), *chapter));
                },
                Pane::Chapters { book, .. } => {
                    return Some((book.clone(), 1));
                },
                _ => {},
            }
            i = i - 1;
        }
        None
    }
}

} // verus!
