//! The quick-jump menu: a typed reference such as `gen 3 15` or `1 john 2`
//! is resolved to a book of the translation (exact name first, then a name
//! starting with the query, then a name containing it, all ignoring case)
//! with an optional chapter and verse.

use vstd::prelude::*;
use crate::app::App;
use crate::pane::{first_index, lemma_first_index_found, lemma_first_index_none, lemma_first_index_spec};
use crate::text::{
    all_numeric, contains_seq, in_order, lowercase, parse_u32, parse_u32_spec, push_char, push_str, split_whitespace,
    starts_with_seq, str_all_numeric, str_contains, str_eq, str_in_order, str_starts_with, to_lowercase, views,
    words,
};

verus! {

/// The book part of a typed reference and the index of the word after it:
/// a numeric first word followed by a non-numeric one forms a two-word book
/// name ("1 john"); otherwise the first word is the book.
pub open spec fn book_query(parts: Seq<Seq<char>>) -> (Seq<char>, int) {
    if all_numeric(parts[0]) && parts.len() > 1 && !all_numeric(parts[1]) {
        (parts[0] + seq![' '] + parts[1], 2)
    } else {
        (parts[0], 1)
    }
}

/// The book a lowercased query names: the first book whose lowercase name
/// equals it, else the first that starts with it, else the first that
/// contains it, else (fuzzily) the first in which the characters of the
/// query occur in order.
pub open spec fn best_book_index(books: Seq<Seq<char>>, q: Seq<char>) -> Option<nat> {
    match first_index(books, |b: Seq<char>| lowercase(b) == q) {
        Some(i) => Some(i),
        None => match first_index(books, |b: Seq<char>| starts_with_seq(lowercase(b), q)) {
            Some(i) => Some(i),
            None => match first_index(books, |b: Seq<char>| contains_seq(lowercase(b), q)) {
                Some(i) => Some(i),
                None => first_index(books, |b: Seq<char>| in_order(q, lowercase(b))),
            },
        },
    }
}

/// The reference a jump-menu buffer names among `books`: the book, then the
/// chapter and verse when the words after the book parse as numbers.
pub open spec fn jump_menu_target(buffer: Seq<char>, books: Seq<Seq<char>>) -> Option<
    (Seq<char>, Option<u32>, Option<u32>),
> {
    let parts = words(buffer);
    if parts.len() == 0 {
        None
    } else {
        let (bq, rest) = book_query(parts);
        match best_book_index(books, lowercase(bq)) {
            None => None,
            Some(i) => Some(
                (
                    books[i as int],
                    if rest < parts.len() {
                        parse_u32_spec(parts[rest])
                    } else {
                        None
                    },
                    if rest + 1 < parts.len() {
                        parse_u32_spec(parts[rest + 1])
                    } else {
                        None
                    },
                ),
            ),
        }
    }
}

/// An optional natural number as an optional `usize`.
pub open spec fn opt_usize(o: Option<nat>) -> Option<usize> {
    match o {
        Some(i) => Some(i as usize),
        None => None,
    }
}

/// The index of the first of `lowered` equal to / starting with /
/// containing `q` / holding the characters of `q` in order, according to
/// `mode` 0, 1, 2 or 3.
pub fn first_book_match(lowered: &Vec<String>, q: &String, mode: u8) -> (r: Option<usize>)
    requires
        mode <= 3,
    ensures
        mode == 0 ==> r == opt_usize(first_index(views(lowered@), |b: Seq<char>| b == q@)),
        mode == 1 ==> r == opt_usize(first_index(views(lowered@), |b: Seq<char>| starts_with_seq(b, q@))),
        mode == 2 ==> r == opt_usize(first_index(views(lowered@), |b: Seq<char>| contains_seq(b, q@))),
        mode == 3 ==> r == opt_usize(first_index(views(lowered@), |b: Seq<char>| in_order(q@, b))),
        r matches Some(i) ==> i < lowered@.len(),
{
    let ghost lv = views(lowered@);
    let ghost p = if mode == 0 {
        |b: Seq<char>| b == q@
    } else if mode == 1 {
        |b: Seq<char>| starts_with_seq(b, q@)
    } else if mode == 2 {
        |b: Seq<char>| contains_seq(b, q@)
    } else {
        |b: Seq<char>| in_order(q@, b)
    };
    let mut i: usize = 0;
    while i < lowered.len()
        invariant
            i <= lowered.len(),
            lv == views(lowered@),
            mode <= 3,
            p == (if mode == 0 {
                |b: Seq<char>| b == q@
            } else if mode == 1 {
                |b: Seq<char>| starts_with_seq(b, q@)
            } else if mode == 2 {
                |b: Seq<char>| contains_seq(b, q@)
            } else {
                |b: Seq<char>| in_order(q@, b)
            }),
            forall|k: int| 0 <= k < i ==> !p(#[trigger] lv[k]),
        decreases lowered.len() - i,
    {
        let b = lowered[i].as_str();
        let hit = if mode == 0 {
            str_eq(b, q.as_str())
        } else if mode == 1 {
            str_starts_with(b, q.as_str())
        } else if mode == 2 {
            str_contains(b, q.as_str())
        } else {
            str_in_order(q.as_str(), b)
        };
        if hit {
            proof {
                lemma_first_index_found(lv, p, i as int);
            }
            return Some(i);
        }
        i = i + 1;
    }
    proof {
        lemma_first_index_none(lv, p);
    }
    None
}

/// `first_index` over the lowercased books equals `first_index` over the
/// books with a predicate on their lowercase form.
proof fn lemma_first_index_lowered(books: Seq<Seq<char>>, lv: Seq<Seq<char>>, p: spec_fn(Seq<char>) -> bool, q: spec_fn(Seq<char>) -> bool)
    requires
        lv.len() == books.len(),
        forall|i: int| 0 <= i < books.len() ==> #[trigger] lv[i] == lowercase(books[i]),
        forall|b: Seq<char>| #[trigger] q(b) == p(lowercase(b)),
    ensures
        first_index(lv, p) == first_index(books, q),
{
    lemma_first_index_spec(lv, p);
    lemma_first_index_spec(books, q);
    match first_index(lv, p) {
        Some(i) => {
            assert forall|k: int| 0 <= k < i implies !q(#[trigger] books[k]) by {
                assert(!p(lv[k]));
            }
            assert(q(books[i as int]));
            lemma_first_index_found(books, q, i as int);
        },
        None => {
            assert forall|k: int| 0 <= k < books.len() implies !q(#[trigger] books[k]) by {
                assert(!p(lv[k]));
            }
            lemma_first_index_none(books, q);
        },
    }
}

/// Resolves the jump-menu buffer of `app` to a book of its book list with
/// an optional chapter and verse (see [`jump_menu_target`]).
pub fn parse_jump_menu(app: &App) -> (r: Option<(String, Option<u32>, Option<u32>)>)
    ensures
        match r {
            Some((b, c, v)) => jump_menu_target(app@.jump_menu_buffer, app@.all_books) == Some((b@, c, v)),
            None => jump_menu_target(app@.jump_menu_buffer, app@.all_books) is None,
        },
{
    let parts = split_whitespace(app.jump_menu_buffer.as_str());
    let ghost pv = views(parts@);
    assert(pv == words(app@.jump_menu_buffer));
    if parts.len() == 0 {
        return None;
    }
    let mut book_q = parts[0].clone();
    let mut rest_idx: usize = 1;
    if str_all_numeric(parts[0].as_str()) && parts.len() > 1 && !str_all_numeric(parts[1].as_str()) {
        push_char(&mut book_q, ' ');
        push_str(&mut book_q, parts[1].as_str());
        rest_idx = 2;
    }
    assert(book_q@ == book_query(pv).0);
    assert(rest_idx == book_query(pv).1);
    let query_lower = to_lowercase(book_q.as_str());
    let ghost q = query_lower@;
    let ghost bv = app@.all_books;
    let mut lowered: Vec<String> = Vec::new();
    let mut i: usize = 0;
    while i < app.all_books.len()
        invariant
            i <= app.all_books.len(),
            bv == views(app.all_books@),
            lowered@.len() == i,
            forall|k: int| 0 <= k < i ==> (#[trigger] lowered@[k])@ == lowercase(bv[k]),
        decreases app.all_books.len() - i,
    {
        let l = to_lowercase(app.all_books[i].as_str());
        lowered.push(l);
        i = i + 1;
    }
    let ghost lv = views(lowered@);
    assert forall|k: int| 0 <= k < bv.len() implies #[trigger] lv[k] == lowercase(bv[k]) by {
        assert(lv[k] == lowered@[k]@);
    }
    proof {
        lemma_first_index_lowered(
            bv,
            lv,
            |b: Seq<char>| b == query_lower@,
            |b: Seq<char>| lowercase(b) == query_lower@,
        );
        lemma_first_index_lowered(
            bv,
            lv,
            |b: Seq<char>| starts_with_seq(b, query_lower@),
            |b: Seq<char>| starts_with_seq(lowercase(b), query_lower@),
        );
        lemma_first_index_lowered(
            bv,
            lv,
            |b: Seq<char>| contains_seq(b, query_lower@),
            |b: Seq<char>| contains_seq(lowercase(b), query_lower@),
        );
        lemma_first_index_lowered(
            bv,
            lv,
            |b: Seq<char>| in_order(query_lower@, b),
            |b: Seq<char>| in_order(query_lower@, lowercase(b)),
        );
    }
    let b0 = first_book_match(&lowered, &query_lower, 0);
    let mut best = b0;
    if b0.is_none() {
        let b1 = first_book_match(&lowered, &query_lower, 1);
        best = b1;
        if b1.is_none() {
            let b2 = first_book_match(&lowered, &query_lower, 2);
            best = b2;
            if b2.is_none() {
                best = first_book_match(&lowered, &query_lower, 3);
            }
        }
    }
    assert(best == opt_usize(best_book_index(bv, query_lower@)));
    let idx = match best {
        Some(i) => i,
        None => {
            return None;
        },
    };
    let book = app.all_books[idx].clone();
    let mut chap: Option<u32> = None;
    let mut verse: Option<u32> = None;
    if rest_idx < parts.len() {
        assert(pv[rest_idx as int] == parts@[rest_idx as int]@);
        chap = parse_u32(parts[rest_idx].as_str());
        if rest_idx + 1 < parts.len() {
            assert(pv[rest_idx + 1] == parts@[rest_idx + 1]@);
            verse = parse_u32(parts[rest_idx + 1].as_str());
        }
    }
    proof {
        lemma_first_index_spec(bv, |b: Seq<char>| lowercase(b) == query_lower@);
        lemma_first_index_spec(bv, |b: Seq<char>| starts_with_seq(lowercase(b), query_lower@));
        lemma_first_index_spec(bv, |b: Seq<char>| contains_seq(lowercase(b), query_lower@));
        lemma_first_index_spec(bv, |b: Seq<char>| in_order(query_lower@, lowercase(b)));
        assert(book@ == bv[idx as int]);
        assert(lowercase(book_query(pv).0) == query_lower@);
        assert(best_book_index(bv, lowercase(book_query(pv).0)) == Some(idx as nat));
    }
    Some((book, chap, verse))
}

} // verus!
