//! Canonical ordering of the books of the Bible: the book list of a
//! translation is shown from Genesis to Revelation, with books outside the
//! canonical list placed after them in the order they came.

use vstd::prelude::*;
use crate::model::Duplicate;
use crate::text::{str_eq, views};

verus! {

/// The sort key given to a book that is not in the canonical list.
pub const UNKNOWN_BOOK_KEY: usize = 100;

/// The sixty-six books in canonical order.
pub open spec fn canonical_books() -> Seq<Seq<char>> {
    seq![
        "Genesis"@, "Exodus"@, "Leviticus"@, "Numbers"@, "Deuteronomy"@,
        "Joshua"@, "Judges"@, "Ruth"@, "1 Samuel"@, "2 Samuel"@,
        "1 Kings"@, "2 Kings"@, "1 Chronicles"@, "2 Chronicles"@, "Ezra"@,
        "Nehemiah"@, "Esther"@, "Job"@, "Psalms"@, "Proverbs"@,
        "Ecclesiastes"@, "Song of Solomon"@, "Isaiah"@, "Jeremiah"@, "Lamentations"@,
        "Ezekiel"@, "Daniel"@, "Hosea"@, "Joel"@, "Amos"@,
        "Obadiah"@, "Jonah"@, "Micah"@, "Nahum"@, "Habakkuk"@,
        "Zephaniah"@, "Haggai"@, "Zechariah"@, "Malachi"@,
        "Matthew"@, "Mark"@, "Luke"@, "John"@, "Acts"@,
        "Romans"@, "1 Corinthians"@, "2 Corinthians"@, "Galatians"@, "Ephesians"@,
        "Philippians"@, "Colossians"@, "1 Thessalonians"@, "2 Thessalonians"@,
        "1 Timothy"@, "2 Timothy"@, "Titus"@, "Philemon"@, "Hebrews"@,
        "James"@, "1 Peter"@, "2 Peter"@, "1 John"@, "2 John"@,
        "3 John"@, "Jude"@, "Revelation"@
    ]
}

/// The first position at or after `from` where `b` stands in `list`, or
/// the unknown-book key when it stands nowhere there.
pub open spec fn first_position(list: Seq<Seq<char>>, b: Seq<char>, from: int) -> nat
    decreases list.len() - from,
{
    if from < 0 || from >= list.len() {
        UNKNOWN_BOOK_KEY as nat
    } else if list[from] == b {
        from as nat
    } else {
        first_position(list, b, from + 1)
    }
}

/// The sort key of a book: its position in the canonical list, or the
/// unknown-book key.
pub open spec fn canonical_key(b: Seq<char>) -> nat {
    first_position(canonical_books(), b, 0)
}

/// The books of `books` whose key is `k`, in their original order.
pub open spec fn books_with_key(books: Seq<Seq<char>>, k: nat) -> Seq<Seq<char>> {
    books.filter(|b: Seq<char>| canonical_key(b) == k)
}

/// The books of `books` with key at most `k`, grouped by key in increasing
/// order, each group in the original order.
pub open spec fn books_up_to_key(books: Seq<Seq<char>>, k: nat) -> Seq<Seq<char>>
    decreases k,
{
    if k == 0 {
        books_with_key(books, 0)
    } else {
        books_up_to_key(books, (k - 1) as nat) + books_with_key(books, k)
    }
}

/// The stable sort of `books` by canonical key.
pub open spec fn canonically_sorted(books: Seq<Seq<char>>) -> Seq<Seq<char>> {
    books_up_to_key(books, UNKNOWN_BOOK_KEY as nat)
}

proof fn lemma_first_position_bound(list: Seq<Seq<char>>, b: Seq<char>, from: int)
    requires
        list.len() <= UNKNOWN_BOOK_KEY,
    ensures
        first_position(list, b, from) <= UNKNOWN_BOOK_KEY,
    decreases list.len() - from,
{
    if 0 <= from < list.len() && list[from] != b {
        lemma_first_position_bound(list, b, from + 1);
    }
}

/// The canonical sort key of a book name.
pub fn canonical_key_of(book: &str) -> (k: usize)
    ensures
        k == canonical_key(book@),
        k <= UNKNOWN_BOOK_KEY,
{
    let canon: Vec<&str> = vec![
        "Genesis", "Exodus", "Leviticus", "Numbers", "Deuteronomy",
        "Joshua", "Judges", "Ruth", "1 Samuel", "2 Samuel",
        "1 Kings", "2 Kings", "1 Chronicles", "2 Chronicles", "Ezra",
        "Nehemiah", "Esther", "Job", "Psalms", "Proverbs",
        "Ecclesiastes", "Song of Solomon", "Isaiah", "Jeremiah", "Lamentations",
        "Ezekiel", "Daniel", "Hosea", "Joel", "Amos",
        "Obadiah", "Jonah", "Micah", "Nahum", "Habakkuk",
        "Zephaniah", "Haggai", "Zechariah", "Malachi",
        "Matthew", "Mark", "Luke", "John", "Acts",
        "Romans", "1 Corinthians", "2 Corinthians", "Galatians", "Ephesians",
        "Philippians", "Colossians", "1 Thessalonians", "2 Thessalonians",
        "1 Timothy", "2 Timothy", "Titus", "Philemon", "Hebrews",
        "James", "1 Peter", "2 Peter", "1 John", "2 John",
        "3 John", "Jude", "Revelation"
    ];
    let ghost list = canon@.map_values(|s: &str| s@);
    assert(list =~= canonical_books());
    let mut i: usize = 0;
    while i < canon.len()
        invariant
            list == canon@.map_values(|s: &str| s@),
            list == canonical_books(),
            list.len() == 66,
            i <= canon.len(),
            first_position(list, book@, 0) == first_position(list, book@, i as int),
        decreases canon.len() - i,
    {
        if str_eq(canon[i], book) {
            assert(list[i as int] == book@);
            return i;
        }
        i = i + 1;
    }
    UNKNOWN_BOOK_KEY
}


/// Filtering keeps every copy of the elements that pass and no other.
proof fn lemma_filter_count<A>(s: Seq<A>, p: spec_fn(A) -> bool, x: A)
    ensures
        s.filter(p).to_multiset().count(x) == if p(x) {
            s.to_multiset().count(x)
        } else {
            0
        },
    decreases s.len(),
{
    broadcast use vstd::seq_lib::group_to_multiset_ensures;
    broadcast use vstd::multiset::group_multiset_axioms;

    reveal(Seq::filter);
    if s.len() == 0 {
        assert(s.to_multiset().len() == 0);
        assert(s.filter(p).to_multiset().len() == 0);
    } else {
        let t = s.drop_last();
        let a = s.last();
        lemma_filter_count(t, p, x);
        assert(t.push(a) =~= s);
        if p(a) {
            assert(s.filter(p) == t.filter(p).push(a));
        } else {
            assert(s.filter(p) == t.filter(p));
        }
    }
}

/// The books up to key `k` hold every copy of the books with key at most
/// `k` and nothing else.
proof fn lemma_up_to_key_count(books: Seq<Seq<char>>, k: nat, x: Seq<char>)
    ensures
        books_up_to_key(books, k).to_multiset().count(x) == if canonical_key(x) <= k {
            books.to_multiset().count(x)
        } else {
            0
        },
    decreases k,
{
    broadcast use vstd::seq_lib::group_to_multiset_ensures;
    broadcast use vstd::multiset::group_multiset_axioms;

    let p = |b: Seq<char>| canonical_key(b) == k;
    lemma_filter_count(books, p, x);
    if k > 0 {
        lemma_up_to_key_count(books, (k - 1) as nat, x);
        vstd::seq_lib::lemma_multiset_commutative(
            books_up_to_key(books, (k - 1) as nat),
            books_with_key(books, k),
        );
    }
}

/// The books up to key `k` come in increasing key order, all at most `k`.
proof fn lemma_up_to_key_sorted(books: Seq<Seq<char>>, k: nat)
    ensures
        forall|i: int|
            0 <= i < books_up_to_key(books, k).len() ==> canonical_key(
                #[trigger] books_up_to_key(books, k)[i],
            ) <= k,
        forall|i: int, j: int|
            0 <= i < j < books_up_to_key(books, k).len() ==> canonical_key(
                #[trigger] books_up_to_key(books, k)[i],
            ) <= canonical_key(#[trigger] books_up_to_key(books, k)[j]),
    decreases k,
{
    let p = |b: Seq<char>| canonical_key(b) == k;
    let w = books_with_key(books, k);
    assert forall|i: int| 0 <= i < w.len() implies canonical_key(#[trigger] w[i]) == k by {
        books.lemma_filter_pred(p, i);
    }
    if k > 0 {
        let prev = books_up_to_key(books, (k - 1) as nat);
        lemma_up_to_key_sorted(books, (k - 1) as nat);
        let r = books_up_to_key(books, k);
        assert(r == prev + w);
        assert forall|i: int| 0 <= i < r.len() implies canonical_key(#[trigger] r[i]) <= k by {
            if i < prev.len() {
                assert(r[i] == prev[i]);
            } else {
                assert(r[i] == w[i - prev.len()]);
            }
        }
        assert forall|i: int, j: int| 0 <= i < j < r.len() implies canonical_key(#[trigger] r[i])
            <= canonical_key(#[trigger] r[j]) by {
            if j < prev.len() {
                assert(r[i] == prev[i]);
                assert(r[j] == prev[j]);
            } else if i < prev.len() {
                assert(r[i] == prev[i]);
                assert(r[j] == w[j - prev.len()]);
            } else {
                assert(r[i] == w[i - prev.len()]);
                assert(r[j] == w[j - prev.len()]);
            }
        }
    }
}

/// The canonical sort reorders the books (no book is added or lost) and
/// puts them in increasing canonical position.
pub proof fn lemma_canonically_sorted(books: Seq<Seq<char>>)
    ensures
        canonically_sorted(books).to_multiset() == books.to_multiset(),
        forall|i: int, j: int|
            0 <= i < j < canonically_sorted(books).len() ==> canonical_key(
                #[trigger] canonically_sorted(books)[i],
            ) <= canonical_key(#[trigger] canonically_sorted(books)[j]),
{
    lemma_up_to_key_sorted(books, UNKNOWN_BOOK_KEY as nat);
    assert forall|x: Seq<char>| #[trigger] canonically_sorted(books).to_multiset().count(x)
        == books.to_multiset().count(x) by {
        lemma_up_to_key_count(books, UNKNOWN_BOOK_KEY as nat, x);
        lemma_first_position_bound(canonical_books(), x, 0);
    }
    assert(canonically_sorted(books).to_multiset() =~= books.to_multiset());
}

/// Orders a translation's book list canonically, as a stable sort by
/// canonical key (books outside the canonical list keep their relative
/// order and come last).
pub fn sort_books_canonically(books: Vec<String>) -> (r: Vec<String>)
    ensures
        views(r@) == canonically_sorted(views(books@)),
        views(r@).to_multiset() == views(books@).to_multiset(),
        forall|i: int, j: int|
            0 <= i < j < r@.len() ==> canonical_key(#[trigger] r@[i]@) <= canonical_key(#[trigger] r@[j]@),
{
    proof {
        lemma_canonically_sorted(views(books@));
    }
    let ghost bv = views(books@);
    let mut keys: Vec<usize> = Vec::new();
    let mut i: usize = 0;
    while i < books.len()
        invariant
            i <= books.len(),
            bv == views(books@),
            keys@.len() == i,
            forall|j: int| 0 <= j < i ==> #[trigger] keys@[j] == canonical_key(bv[j]),
        decreases books.len() - i,
    {
        let k = canonical_key_of(books[i].as_str());
        keys.push(k);
        i = i + 1;
    }
    let mut out: Vec<String> = Vec::new();
    let mut k: usize = 0;
    while k <= UNKNOWN_BOOK_KEY
        invariant
            k <= UNKNOWN_BOOK_KEY + 1,
            bv == views(books@),
            keys@.len() == books@.len(),
            forall|j: int| 0 <= j < books@.len() ==> #[trigger] keys@[j] == canonical_key(bv[j]),
            k == 0 ==> out@.len() == 0,
            k > 0 ==> views(out@) == books_up_to_key(bv, (k - 1) as nat),
        decreases UNKNOWN_BOOK_KEY + 1 - k,
    {
        let ghost before = views(out@);
        let ghost pred = |b: Seq<char>| canonical_key(b) == k as nat;
        let mut j: usize = 0;
        while j < books.len()
            invariant
                j <= books.len(),
                k <= UNKNOWN_BOOK_KEY,
                bv == views(books@),
                keys@.len() == books@.len(),
                forall|m: int| 0 <= m < books@.len() ==> #[trigger] keys@[m] == canonical_key(bv[m]),
                pred == (|b: Seq<char>| canonical_key(b) == k as nat),
                views(out@) == before + bv.take(j as int).filter(pred),
            decreases books.len() - j,
        {
            proof {
                assert(bv.take(j + 1) =~= bv.take(j as int).push(bv[j as int]));
                bv.take(j as int).lemma_filter_push(bv[j as int], pred);
            }
            if keys[j] == k {
                let b = books[j].duplicate();
                let ghost o = out@;
                out.push(b);
                assert(views(out@) =~= views(o).push(b@));
            }
            j = j + 1;
        }
        assert(bv.take(books.len() as int) =~= bv);
        proof {
            if k == 0 {
                assert(views(out@) =~= books_with_key(bv, 0));
            } else {
                assert(views(out@) =~= books_up_to_key(bv, k as nat));
            }
        }
        k = k + 1;
    }
    assert forall|i: int, j: int| 0 <= i < j < out@.len() implies canonical_key(#[trigger] out@[i]@)
        <= canonical_key(#[trigger] out@[j]@) by {
        assert(out@[i]@ == views(out@)[i]);
        assert(out@[j]@ == views(out@)[j]);
    }
    out
}

} // verus!
