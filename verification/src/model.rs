//! The data the reader shows: verses of a chapter and global search hits,
//! with their mathematical views and verified deep copies.

use vstd::prelude::*;
use crate::text::views;

verus! {

/// One verse of a chapter.
#[derive(Debug, Clone)]
pub struct Verse {
    pub chapter: u32,
    pub verse: u32,
    pub text: String,
}

/// One hit of a global search.
#[derive(Debug, Clone)]
pub struct SearchResult {
    pub book: String,
    pub chapter: u32,
    pub verse: u32,
    pub text: String,
}

/// The mathematical value of a [`Verse`].
pub ghost struct VerseView {
    pub chapter: u32,
    pub verse: u32,
    pub text: Seq<char>,
}

/// The mathematical value of a [`SearchResult`].
pub ghost struct SearchResultView {
    pub book: Seq<char>,
    pub chapter: u32,
    pub verse: u32,
    pub text: Seq<char>,
}

impl View for Verse {
    type V = VerseView;

    open spec fn view(&self) -> VerseView {
        VerseView { chapter: self.chapter, verse: self.verse, text: self.text@ }
    }
}

impl View for SearchResult {
    type V = SearchResultView;

    open spec fn view(&self) -> SearchResultView {
        SearchResultView {
            book: self.book@,
            chapter: self.chapter,
            verse: self.verse,
            text: self.text@,
        }
    }
}

/// Values that can be copied with a proof that the copy has the same view.
pub trait Duplicate: View + Sized {
    fn duplicate(&self) -> (r: Self)
        ensures
            r@ == self@,
    ;
}

impl Duplicate for String {
    fn duplicate(&self) -> (r: String) {
        self.clone()
    }
}

impl Duplicate for u32 {
    fn duplicate(&self) -> (r: u32) {
        *self
    }
}

impl Duplicate for usize {
    fn duplicate(&self) -> (r: usize) {
        *self
    }
}

impl Duplicate for Verse {
    fn duplicate(&self) -> (r: Verse) {
        Verse { chapter: self.chapter, verse: self.verse, text: self.text.clone() }
    }
}

impl Duplicate for SearchResult {
    fn duplicate(&self) -> (r: SearchResult) {
        SearchResult {
            book: self.book.clone(),
            chapter: self.chapter,
            verse: self.verse,
            text: self.text.clone(),
        }
    }
}

/// A copy of a vector, element by element, with the same views.
pub fn duplicate_vec<T: Duplicate>(v: &Vec<T>) -> (r: Vec<T>)
    ensures
        views(r@) == views(v@),
{
    let mut r: Vec<T> = Vec::new();
    let mut i: usize = 0;
    while i < v.len()
        invariant
            i <= v.len(),
            r@.len() == i,
            views(r@) == views(v@.take(i as int)),
        decreases v.len() - i,
    {
        let x = v[i].duplicate();
        assert(x@ == v@[i as int]@);
        let ghost old_r = r@;
        r.push(x);
        proof {
            assert(r@ == old_r.push(x));
            assert forall|k: int| 0 <= k < r@.len() implies #[trigger] views(r@)[k] == views(
                v@.take(i + 1),
            )[k] by {
                if k < i {
                    assert(views(old_r)[k] == views(v@.take(i as int))[k]);
                }
            }
        }
        i = i + 1;
        assert(views(r@) =~= views(v@.take(i as int)));
    }
    assert(v@.take(v.len() as int) =~= v@);
    r
}

} // verus!
