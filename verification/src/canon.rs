//! The canonical key of every book of the Bible, stated book by book:
//! Genesis is book 0, Exodus book 1, and so on to Revelation, book 65.

use vstd::prelude::*;
use crate::books::{canonical_books, canonical_key, first_position};

verus! {

/// A book found at position `i`, and at no earlier position from `from`
/// on, has first position `i`.
proof fn lemma_position_from(list: Seq<Seq<char>>, b: Seq<char>, from: int, i: int)
    requires
        0 <= from <= i < list.len(),
        list[i] == b,
        forall|k: int| from <= k < i ==> list[k] != b,
    ensures
        first_position(list, b, from) == i,
    decreases i - from,
{
    if from < i {
        lemma_position_from(list, b, from + 1, i);
    }
}

/// Genesis is book 0.
proof fn key_of_genesis()
    ensures
        canonical_key("Genesis"@) == 0,
{
    let c = canonical_books();
    reveal_strlit("Genesis");
    assert(c[0] == "Genesis"@);
    lemma_position_from(c, "Genesis"@, 0, 0);
}

/// Exodus is book 1.
proof fn key_of_exodus()
    ensures
        canonical_key("Exodus"@) == 1,
{
    let c = canonical_books();
    reveal_strlit("Genesis");
    reveal_strlit("Exodus");
    assert(c[1] == "Exodus"@);
    assert(
        c[0] != "Exodus"@
    );
    lemma_position_from(c, "Exodus"@, 0, 1);
}

/// Leviticus is book 2.
proof fn key_of_leviticus()
    ensures
        canonical_key("Leviticus"@) == 2,
{
    let c = canonical_books();
    reveal_strlit("Genesis");
    reveal_strlit("Exodus");
    reveal_strlit("Leviticus");
    assert(c[2] == "Leviticus"@);
    assert(
        c[0] != "Leviticus"@ && c[1] != "Leviticus"@
    );
    lemma_position_from(c, "Leviticus"@, 0, 2);
}

/// Numbers is book 3.
proof fn key_of_numbers()
    ensures
        canonical_key("Numbers"@) == 3,
{
    let c = canonical_books();
    reveal_strlit("Genesis");
    reveal_strlit("Exodus");
    reveal_strlit("Leviticus");
    reveal_strlit("Numbers");
    assert("Genesis"@[0] != "Numbers"@[0]);
    assert(c[3] == "Numbers"@);
    assert(
        c[0] != "Numbers"@ && c[1] != "Numbers"@ && c[2] != "Numbers"@
    );
    lemma_position_from(c, "Numbers"@, 0, 3);
}

/// Deuteronomy is book 4.
proof fn key_of_deuteronomy()
    ensures
        canonical_key("Deuteronomy"@) == 4,
{
    let c = canonical_books();
    reveal_strlit("Genesis");
    reveal_strlit("Exodus");
    reveal_strlit("Leviticus");
    reveal_strlit("Numbers");
    reveal_strlit("Deuteronomy");
    assert(c[4] == "Deuteronomy"@);
    assert(
        c[0] != "Deuteronomy"@ && c[1] != "Deuteronomy"@ && c[2] != "Deuteronomy"@
        && c[3] != "Deuteronomy"@
    );
    lemma_position_from(c, "Deuteronomy"@, 0, 4);
}

/// Joshua is book 5.
proof fn key_of_joshua()
    ensures
        canonical_key("Joshua"@) == 5,
{
    let c = canonical_books();
    reveal_strlit("Genesis");
    reveal_strlit("Exodus");
    reveal_strlit("Leviticus");
    reveal_strlit("Numbers");
    reveal_strlit("Deuteronomy");
    reveal_strlit("Joshua");
    assert("Exodus"@[0] != "Joshua"@[0]);
    assert(c[5] == "Joshua"@);
    assert(
        c[0] != "Joshua"@ && c[1] != "Joshua"@ && c[2] != "Joshua"@ && c[3] != "Joshua"@
        && c[4] != "Joshua"@
    );
    lemma_position_from(c, "Joshua"@, 0, 5);
}

/// Judges is book 6.
proof fn key_of_judges()
    ensures
        canonical_key("Judges"@) == 6,
{
    let c = canonical_books();
    reveal_strlit("Genesis");
    reveal_strlit("Exodus");
    reveal_strlit("Leviticus");
    reveal_strlit("Numbers");
    reveal_strlit("Deuteronomy");
    reveal_strlit("Joshua");
    reveal_strlit("Judges");
    assert("Exodus"@[0] != "Judges"@[0]);
    assert("Joshua"@[1] != "Judges"@[1]);
    assert(c[6] == "Judges"@);
    assert(
        c[0] != "Judges"@ && c[1] != "Judges"@ && c[2] != "Judges"@ && c[3] != "Judges"@
        && c[4] != "Judges"@ && c[5] != "Judges"@
    );
    lemma_position_from(c, "Judges"@, 0, 6);
}

/// Ruth is book 7.
proof fn key_of_ruth()
    ensures
        canonical_key("Ruth"@) == 7,
{
    let c = canonical_books();
    reveal_strlit("Genesis");
    reveal_strlit("Exodus");
    reveal_strlit("Leviticus");
    reveal_strlit("Numbers");
    reveal_strlit("Deuteronomy");
    reveal_strlit("Joshua");
    reveal_strlit("Judges");
    reveal_strlit("Ruth");
    assert(c[7] == "Ruth"@);
    assert(
        c[0] != "Ruth"@ && c[1] != "Ruth"@ && c[2] != "Ruth"@ && c[3] != "Ruth"@
        && c[4] != "Ruth"@ && c[5] != "Ruth"@ && c[6] != "Ruth"@
    );
    lemma_position_from(c, "Ruth"@, 0, 7);
}

/// 1 Samuel is book 8.
proof fn key_of_1_samuel()
    ensures
        canonical_key("1 Samuel"@) == 8,
{
    let c = canonical_books();
    reveal_strlit("Genesis");
    reveal_strlit("Exodus");
    reveal_strlit("Leviticus");
    reveal_strlit("Numbers");
    reveal_strlit("Deuteronomy");
    reveal_strlit("Joshua");
    reveal_strlit("Judges");
    reveal_strlit("Ruth");
    reveal_strlit("1 Samuel");
    assert(c[8] == "1 Samuel"@);
    assert(
        c[0] != "1 Samuel"@ && c[1] != "1 Samuel"@ && c[2] != "1 Samuel"@ && c[3] != "1 Samuel"@
        && c[4] != "1 Samuel"@ && c[5] != "1 Samuel"@ && c[6] != "1 Samuel"@ && c[7] != "1 Samuel"@
    );
    lemma_position_from(c, "1 Samuel"@, 0, 8);
}

/// 2 Samuel is book 9.
proof fn key_of_2_samuel()
    ensures
        canonical_key("2 Samuel"@) == 9,
{
    let c = canonical_books();
    reveal_strlit("Genesis");
    reveal_strlit("Exodus");
    reveal_strlit("Leviticus");
    reveal_strlit("Numbers");
    reveal_strlit("Deuteronomy");
    reveal_strlit("Joshua");
    reveal_strlit("Judges");
    reveal_strlit("Ruth");
    reveal_strlit("1 Samuel");
    reveal_strlit("2 Samuel");
    assert("1 Samuel"@[0] != "2 Samuel"@[0]);
    assert(c[9] == "2 Samuel"@);
    assert(
        c[0] != "2 Samuel"@ && c[1] != "2 Samuel"@ && c[2] != "2 Samuel"@ && c[3] != "2 Samuel"@
        && c[4] != "2 Samuel"@ && c[5] != "2 Samuel"@ && c[6] != "2 Samuel"@ && c[7] != "2 Samuel"@
        && c[8] != "2 Samuel"@
    );
    lemma_position_from(c, "2 Samuel"@, 0, 9);
}

/// 1 Kings is book 10.
proof fn key_of_1_kings()
    ensures
        canonical_key("1 Kings"@) == 10,
{
    let c = canonical_books();
    reveal_strlit("Genesis");
    reveal_strlit("Exodus");
    reveal_strlit("Leviticus");
    reveal_strlit("Numbers");
    reveal_strlit("Deuteronomy");
    reveal_strlit("Joshua");
    reveal_strlit("Judges");
    reveal_strlit("Ruth");
    reveal_strlit("1 Samuel");
    reveal_strlit("2 Samuel");
    reveal_strlit("1 Kings");
    assert("Genesis"@[0] != "1 Kings"@[0]);
    assert("Numbers"@[0] != "1 Kings"@[0]);
    assert(c[10] == "1 Kings"@);
    assert(
        c[0] != "1 Kings"@ && c[1] != "1 Kings"@ && c[2] != "1 Kings"@ && c[3] != "1 Kings"@
        && c[4] != "1 Kings"@ && c[5] != "1 Kings"@ && c[6] != "1 Kings"@ && c[7] != "1 Kings"@
        && c[8] != "1 Kings"@ && c[9] != "1 Kings"@
    );
    lemma_position_from(c, "1 Kings"@, 0, 10);
}

/// 2 Kings is book 11.
proof fn key_of_2_kings()
    ensures
        canonical_key("2 Kings"@) == 11,
{
    let c = canonical_books();
    reveal_strlit("Genesis");
    reveal_strlit("Exodus");
    reveal_strlit("Leviticus");
    reveal_strlit("Numbers");
    reveal_strlit("Deuteronomy");
    reveal_strlit("Joshua");
    reveal_strlit("Judges");
    reveal_strlit("Ruth");
    reveal_strlit("1 Samuel");
    reveal_strlit("2 Samuel");
    reveal_strlit("1 Kings");
    reveal_strlit("2 Kings");
    assert("Genesis"@[0] != "2 Kings"@[0]);
    assert("Numbers"@[0] != "2 Kings"@[0]);
    assert("1 Kings"@[0] != "2 Kings"@[0]);
    assert(c[11] == "2 Kings"@);
    assert(
        c[0] != "2 Kings"@ && c[1] != "2 Kings"@ && c[2] != "2 Kings"@ && c[3] != "2 Kings"@
        && c[4] != "2 Kings"@ && c[5] != "2 Kings"@ && c[6] != "2 Kings"@ && c[7] != "2 Kings"@
        && c[8] != "2 Kings"@ && c[9] != "2 Kings"@ && c[10] != "2 Kings"@
    );
    lemma_position_from(c, "2 Kings"@, 0, 11);
}

/// 1 Chronicles is book 12.
proof fn key_of_1_chronicles()
    ensures
        canonical_key("1 Chronicles"@) == 12,
{
    let c = canonical_books();
    reveal_strlit("Genesis");
    reveal_strlit("Exodus");
    reveal_strlit("Leviticus");
    reveal_strlit("Numbers");
    reveal_strlit("Deuteronomy");
    reveal_strlit("Joshua");
    reveal_strlit("Judges");
    reveal_strlit("Ruth");
    reveal_strlit("1 Samuel");
    reveal_strlit("2 Samuel");
    reveal_strlit("1 Kings");
    reveal_strlit("2 Kings");
    reveal_strlit("1 Chronicles");
    assert(c[12] == "1 Chronicles"@);
    assert(
        c[0] != "1 Chronicles"@ && c[1] != "1 Chronicles"@ && c[2] != "1 Chronicles"@
        && c[3] != "1 Chronicles"@ && c[4] != "1 Chronicles"@ && c[5] != "1 Chronicles"@
        && c[6] != "1 Chronicles"@ && c[7] != "1 Chronicles"@ && c[8] != "1 Chronicles"@
        && c[9] != "1 Chronicles"@ && c[10] != "1 Chronicles"@ && c[11] != "1 Chronicles"@
    );
    lemma_position_from(c, "1 Chronicles"@, 0, 12);
}

/// 2 Chronicles is book 13.
proof fn key_of_2_chronicles()
    ensures
        canonical_key("2 Chronicles"@) == 13,
{
    let c = canonical_books();
    reveal_strlit("Genesis");
    reveal_strlit("Exodus");
    reveal_strlit("Leviticus");
    reveal_strlit("Numbers");
    reveal_strlit("Deuteronomy");
    reveal_strlit("Joshua");
    reveal_strlit("Judges");
    reveal_strlit("Ruth");
    reveal_strlit("1 Samuel");
    reveal_strlit("2 Samuel");
    reveal_strlit("1 Kings");
    reveal_strlit("2 Kings");
    reveal_strlit("1 Chronicles");
    reveal_strlit("2 Chronicles");
    assert("1 Chronicles"@[0] != "2 Chronicles"@[0]);
    assert(c[13] == "2 Chronicles"@);
    assert(
        c[0] != "2 Chronicles"@ && c[1] != "2 Chronicles"@ && c[2] != "2 Chronicles"@
        && c[3] != "2 Chronicles"@ && c[4] != "2 Chronicles"@ && c[5] != "2 Chronicles"@
        && c[6] != "2 Chronicles"@ && c[7] != "2 Chronicles"@ && c[8] != "2 Chronicles"@
        && c[9] != "2 Chronicles"@ && c[10] != "2 Chronicles"@ && c[11] != "2 Chronicles"@
        && c[12] != "2 Chronicles"@
    );
    lemma_position_from(c, "2 Chronicles"@, 0, 13);
}

/// Ezra is book 14.
proof fn key_of_ezra()
    ensures
        canonical_key("Ezra"@) == 14,
{
    let c = canonical_books();
    reveal_strlit("Genesis");
    reveal_strlit("Exodus");
    reveal_strlit("Leviticus");
    reveal_strlit("Numbers");
    reveal_strlit("Deuteronomy");
    reveal_strlit("Joshua");
    reveal_strlit("Judges");
    reveal_strlit("Ruth");
    reveal_strlit("1 Samuel");
    reveal_strlit("2 Samuel");
    reveal_strlit("1 Kings");
    reveal_strlit("2 Kings");
    reveal_strlit("1 Chronicles");
    reveal_strlit("2 Chronicles");
    reveal_strlit("Ezra");
    assert("Ruth"@[0] != "Ezra"@[0]);
    assert(c[14] == "Ezra"@);
    assert(
        c[0] != "Ezra"@ && c[1] != "Ezra"@ && c[2] != "Ezra"@ && c[3] != "Ezra"@
        && c[4] != "Ezra"@ && c[5] != "Ezra"@ && c[6] != "Ezra"@ && c[7] != "Ezra"@
        && c[8] != "Ezra"@ && c[9] != "Ezra"@ && c[10] != "Ezra"@ && c[11] != "Ezra"@
        && c[12] != "Ezra"@ && c[13] != "Ezra"@
    );
    lemma_position_from(c, "Ezra"@, 0, 14);
}

/// Nehemiah is book 15.
proof fn key_of_nehemiah()
    ensures
        canonical_key("Nehemiah"@) == 15,
{
    let c = canonical_books();
    reveal_strlit("Genesis");
    reveal_strlit("Exodus");
    reveal_strlit("Leviticus");
    reveal_strlit("Numbers");
    reveal_strlit("Deuteronomy");
    reveal_strlit("Joshua");
    reveal_strlit("Judges");
    reveal_strlit("Ruth");
    reveal_strlit("1 Samuel");
    reveal_strlit("2 Samuel");
    reveal_strlit("1 Kings");
    reveal_strlit("2 Kings");
    reveal_strlit("1 Chronicles");
    reveal_strlit("2 Chronicles");
    reveal_strlit("Ezra");
    reveal_strlit("Nehemiah");
    assert("1 Samuel"@[0] != "Nehemiah"@[0]);
    assert("2 Samuel"@[0] != "Nehemiah"@[0]);
    assert(c[15] == "Nehemiah"@);
    assert(
        c[0] != "Nehemiah"@ && c[1] != "Nehemiah"@ && c[2] != "Nehemiah"@ && c[3] != "Nehemiah"@
        && c[4] != "Nehemiah"@ && c[5] != "Nehemiah"@ && c[6] != "Nehemiah"@ && c[7] != "Nehemiah"@
        && c[8] != "Nehemiah"@ && c[9] != "Nehemiah"@ && c[10] != "Nehemiah"@
        && c[11] != "Nehemiah"@ && c[12] != "Nehemiah"@ && c[13] != "Nehemiah"@
        && c[14] != "Nehemiah"@
    );
    lemma_position_from(c, "Nehemiah"@, 0, 15);
}

/// Esther is book 16.
proof fn key_of_esther()
    ensures
        canonical_key("Esther"@) == 16,
{
    let c = canonical_books();
    reveal_strlit("Genesis");
    reveal_strlit("Exodus");
    reveal_strlit("Leviticus");
    reveal_strlit("Numbers");
    reveal_strlit("Deuteronomy");
    reveal_strlit("Joshua");
    reveal_strlit("Judges");
    reveal_strlit("Ruth");
    reveal_strlit("1 Samuel");
    reveal_strlit("2 Samuel");
    reveal_strlit("1 Kings");
    reveal_strlit("2 Kings");
    reveal_strlit("1 Chronicles");
    reveal_strlit("2 Chronicles");
    reveal_strlit("Ezra");
    reveal_strlit("Nehemiah");
    reveal_strlit("Esther");
    assert("Exodus"@[1] != "Esther"@[1]);
    assert("Joshua"@[0] != "Esther"@[0]);
    assert("Judges"@[0] != "Esther"@[0]);
    assert(c[16] == "Esther"@);
    assert(
        c[0] != "Esther"@ && c[1] != "Esther"@ && c[2] != "Esther"@ && c[3] != "Esther"@
        && c[4] != "Esther"@ && c[5] != "Esther"@ && c[6] != "Esther"@ && c[7] != "Esther"@
        && c[8] != "Esther"@ && c[9] != "Esther"@ && c[10] != "Esther"@ && c[11] != "Esther"@
        && c[12] != "Esther"@ && c[13] != "Esther"@ && c[14] != "Esther"@ && c[15] != "Esther"@
    );
    lemma_position_from(c, "Esther"@, 0, 16);
}

/// Job is book 17.
proof fn key_of_job()
    ensures
        canonical_key("Job"@) == 17,
{
    let c = canonical_books();
    reveal_strlit("Genesis");
    reveal_strlit("Exodus");
    reveal_strlit("Leviticus");
    reveal_strlit("Numbers");
    reveal_strlit("Deuteronomy");
    reveal_strlit("Joshua");
    reveal_strlit("Judges");
    reveal_strlit("Ruth");
    reveal_strlit("1 Samuel");
    reveal_strlit("2 Samuel");
    reveal_strlit("1 Kings");
    reveal_strlit("2 Kings");
    reveal_strlit("1 Chronicles");
    reveal_strlit("2 Chronicles");
    reveal_strlit("Ezra");
    reveal_strlit("Nehemiah");
    reveal_strlit("Esther");
    reveal_strlit("Job");
    assert(c[17] == "Job"@);
    assert(
        c[0] != "Job"@ && c[1] != "Job"@ && c[2] != "Job"@ && c[3] != "Job"@ && c[4] != "Job"@
        && c[5] != "Job"@ && c[6] != "Job"@ && c[7] != "Job"@ && c[8] != "Job"@ && c[9] != "Job"@
        && c[10] != "Job"@ && c[11] != "Job"@ && c[12] != "Job"@ && c[13] != "Job"@
        && c[14] != "Job"@ && c[15] != "Job"@ && c[16] != "Job"@
    );
    lemma_position_from(c, "Job"@, 0, 17);
}

/// Psalms is book 18.
proof fn key_of_psalms()
    ensures
        canonical_key("Psalms"@) == 18,
{
    let c = canonical_books();
    reveal_strlit("Genesis");
    reveal_strlit("Exodus");
    reveal_strlit("Leviticus");
    reveal_strlit("Numbers");
    reveal_strlit("Deuteronomy");
    reveal_strlit("Joshua");
    reveal_strlit("Judges");
    reveal_strlit("Ruth");
    reveal_strlit("1 Samuel");
    reveal_strlit("2 Samuel");
    reveal_strlit("1 Kings");
    reveal_strlit("2 Kings");
    reveal_strlit("1 Chronicles");
    reveal_strlit("2 Chronicles");
    reveal_strlit("Ezra");
    reveal_strlit("Nehemiah");
    reveal_strlit("Esther");
    reveal_strlit("Job");
    reveal_strlit("Psalms");
    assert("Exodus"@[0] != "Psalms"@[0]);
    assert("Joshua"@[0] != "Psalms"@[0]);
    assert("Judges"@[0] != "Psalms"@[0]);
    assert("Esther"@[0] != "Psalms"@[0]);
    assert(c[18] == "Psalms"@);
    assert(
        c[0] != "Psalms"@ && c[1] != "Psalms"@ && c[2] != "Psalms"@ && c[3] != "Psalms"@
        && c[4] != "Psalms"@ && c[5] != "Psalms"@ && c[6] != "Psalms"@ && c[7] != "Psalms"@
        && c[8] != "Psalms"@ && c[9] != "Psalms"@ && c[10] != "Psalms"@ && c[11] != "Psalms"@
        && c[12] != "Psalms"@ && c[13] != "Psalms"@ && c[14] != "Psalms"@ && c[15] != "Psalms"@
        && c[16] != "Psalms"@ && c[17] != "Psalms"@
    );
    lemma_position_from(c, "Psalms"@, 0, 18);
}

/// Proverbs is book 19.
proof fn key_of_proverbs()
    ensures
        canonical_key("Proverbs"@) == 19,
{
    let c = canonical_books();
    reveal_strlit("Genesis");
    reveal_strlit("Exodus");
    reveal_strlit("Leviticus");
    reveal_strlit("Numbers");
    reveal_strlit("Deuteronomy");
    reveal_strlit("Joshua");
    reveal_strlit("Judges");
    reveal_strlit("Ruth");
    reveal_strlit("1 Samuel");
    reveal_strlit("2 Samuel");
    reveal_strlit("1 Kings");
    reveal_strlit("2 Kings");
    reveal_strlit("1 Chronicles");
    reveal_strlit("2 Chronicles");
    reveal_strlit("Ezra");
    reveal_strlit("Nehemiah");
    reveal_strlit("Esther");
    reveal_strlit("Job");
    reveal_strlit("Psalms");
    reveal_strlit("Proverbs");
    assert("1 Samuel"@[0] != "Proverbs"@[0]);
    assert("2 Samuel"@[0] != "Proverbs"@[0]);
    assert("Nehemiah"@[0] != "Proverbs"@[0]);
    assert(c[19] == "Proverbs"@);
    assert(
        c[0] != "Proverbs"@ && c[1] != "Proverbs"@ && c[2] != "Proverbs"@ && c[3] != "Proverbs"@
        && c[4] != "Proverbs"@ && c[5] != "Proverbs"@ && c[6] != "Proverbs"@ && c[7] != "Proverbs"@
        && c[8] != "Proverbs"@ && c[9] != "Proverbs"@ && c[10] != "Proverbs"@
        && c[11] != "Proverbs"@ && c[12] != "Proverbs"@ && c[13] != "Proverbs"@
        && c[14] != "Proverbs"@ && c[15] != "Proverbs"@ && c[16] != "Proverbs"@
        && c[17] != "Proverbs"@ && c[18] != "Proverbs"@
    );
    lemma_position_from(c, "Proverbs"@, 0, 19);
}

/// Ecclesiastes is book 20.
proof fn key_of_ecclesiastes()
    ensures
        canonical_key("Ecclesiastes"@) == 20,
{
    let c = canonical_books();
    reveal_strlit("Genesis");
    reveal_strlit("Exodus");
    reveal_strlit("Leviticus");
    reveal_strlit("Numbers");
    reveal_strlit("Deuteronomy");
    reveal_strlit("Joshua");
    reveal_strlit("Judges");
    reveal_strlit("Ruth");
    reveal_strlit("1 Samuel");
    reveal_strlit("2 Samuel");
    reveal_strlit("1 Kings");
    reveal_strlit("2 Kings");
    reveal_strlit("1 Chronicles");
    reveal_strlit("2 Chronicles");
    reveal_strlit("Ezra");
    reveal_strlit("Nehemiah");
    reveal_strlit("Esther");
    reveal_strlit("Job");
    reveal_strlit("Psalms");
    reveal_strlit("Proverbs");
    reveal_strlit("Ecclesiastes");
    assert("1 Chronicles"@[0] != "Ecclesiastes"@[0]);
    assert("2 Chronicles"@[0] != "Ecclesiastes"@[0]);
    assert(c[20] == "Ecclesiastes"@);
    assert(
        c[0] != "Ecclesiastes"@ && c[1] != "Ecclesiastes"@ && c[2] != "Ecclesiastes"@
        && c[3] != "Ecclesiastes"@ && c[4] != "Ecclesiastes"@ && c[5] != "Ecclesiastes"@
        && c[6] != "Ecclesiastes"@ && c[7] != "Ecclesiastes"@ && c[8] != "Ecclesiastes"@
        && c[9] != "Ecclesiastes"@ && c[10] != "Ecclesiastes"@ && c[11] != "Ecclesiastes"@
        && c[12] != "Ecclesiastes"@ && c[13] != "Ecclesiastes"@ && c[14] != "Ecclesiastes"@
        && c[15] != "Ecclesiastes"@ && c[16] != "Ecclesiastes"@ && c[17] != "Ecclesiastes"@
        && c[18] != "Ecclesiastes"@ && c[19] != "Ecclesiastes"@
    );
    lemma_position_from(c, "Ecclesiastes"@, 0, 20);
}

/// Song of Solomon is book 21.
proof fn key_of_song_of_solomon()
    ensures
        canonical_key("Song of Solomon"@) == 21,
{
    let c = canonical_books();
    reveal_strlit("Genesis");
    reveal_strlit("Exodus");
    reveal_strlit("Leviticus");
    reveal_strlit("Numbers");
    reveal_strlit("Deuteronomy");
    reveal_strlit("Joshua");
    reveal_strlit("Judges");
    reveal_strlit("Ruth");
    reveal_strlit("1 Samuel");
    reveal_strlit("2 Samuel");
    reveal_strlit("1 Kings");
    reveal_strlit("2 Kings");
    reveal_strlit("1 Chronicles");
    reveal_strlit("2 Chronicles");
    reveal_strlit("Ezra");
    reveal_strlit("Nehemiah");
    reveal_strlit("Esther");
    reveal_strlit("Job");
    reveal_strlit("Psalms");
    reveal_strlit("Proverbs");
    reveal_strlit("Ecclesiastes");
    reveal_strlit("Song of Solomon");
    assert(c[21] == "Song of Solomon"@);
    assert(
        c[0] != "Song of Solomon"@ && c[1] != "Song of Solomon"@ && c[2] != "Song of Solomon"@
        && c[3] != "Song of Solomon"@ && c[4] != "Song of Solomon"@ && c[5] != "Song of Solomon"@
        && c[6] != "Song of Solomon"@ && c[7] != "Song of Solomon"@ && c[8] != "Song of Solomon"@
        && c[9] != "Song of Solomon"@ && c[10] != "Song of Solomon"@ && c[11] != "Song of Solomon"@
        && c[12] != "Song of Solomon"@ && c[13] != "Song of Solomon"@
        && c[14] != "Song of Solomon"@ && c[15] != "Song of Solomon"@
        && c[16] != "Song of Solomon"@ && c[17] != "Song of Solomon"@
        && c[18] != "Song of Solomon"@ && c[19] != "Song of Solomon"@
        && c[20] != "Song of Solomon"@
    );
    lemma_position_from(c, "Song of Solomon"@, 0, 21);
}

/// Isaiah is book 22.
proof fn key_of_isaiah()
    ensures
        canonical_key("Isaiah"@) == 22,
{
    let c = canonical_books();
    reveal_strlit("Genesis");
    reveal_strlit("Exodus");
    reveal_strlit("Leviticus");
    reveal_strlit("Numbers");
    reveal_strlit("Deuteronomy");
    reveal_strlit("Joshua");
    reveal_strlit("Judges");
    reveal_strlit("Ruth");
    reveal_strlit("1 Samuel");
    reveal_strlit("2 Samuel");
    reveal_strlit("1 Kings");
    reveal_strlit("2 Kings");
    reveal_strlit("1 Chronicles");
    reveal_strlit("2 Chronicles");
    reveal_strlit("Ezra");
    reveal_strlit("Nehemiah");
    reveal_strlit("Esther");
    reveal_strlit("Job");
    reveal_strlit("Psalms");
    reveal_strlit("Proverbs");
    reveal_strlit("Ecclesiastes");
    reveal_strlit("Song of Solomon");
    reveal_strlit("Isaiah");
    assert("Exodus"@[0] != "Isaiah"@[0]);
    assert("Joshua"@[0] != "Isaiah"@[0]);
    assert("Judges"@[0] != "Isaiah"@[0]);
    assert("Esther"@[0] != "Isaiah"@[0]);
    assert("Psalms"@[0] != "Isaiah"@[0]);
    assert(c[22] == "Isaiah"@);
    assert(
        c[0] != "Isaiah"@ && c[1] != "Isaiah"@ && c[2] != "Isaiah"@ && c[3] != "Isaiah"@
        && c[4] != "Isaiah"@ && c[5] != "Isaiah"@ && c[6] != "Isaiah"@ && c[7] != "Isaiah"@
        && c[8] != "Isaiah"@ && c[9] != "Isaiah"@ && c[10] != "Isaiah"@ && c[11] != "Isaiah"@
        && c[12] != "Isaiah"@ && c[13] != "Isaiah"@ && c[14] != "Isaiah"@ && c[15] != "Isaiah"@
        && c[16] != "Isaiah"@ && c[17] != "Isaiah"@ && c[18] != "Isaiah"@ && c[19] != "Isaiah"@
        && c[20] != "Isaiah"@ && c[21] != "Isaiah"@
    );
    lemma_position_from(c, "Isaiah"@, 0, 22);
}

/// Jeremiah is book 23.
proof fn key_of_jeremiah()
    ensures
        canonical_key("Jeremiah"@) == 23,
{
    let c = canonical_books();
    reveal_strlit("Genesis");
    reveal_strlit("Exodus");
    reveal_strlit("Leviticus");
    reveal_strlit("Numbers");
    reveal_strlit("Deuteronomy");
    reveal_strlit("Joshua");
    reveal_strlit("Judges");
    reveal_strlit("Ruth");
    reveal_strlit("1 Samuel");
    reveal_strlit("2 Samuel");
    reveal_strlit("1 Kings");
    reveal_strlit("2 Kings");
    reveal_strlit("1 Chronicles");
    reveal_strlit("2 Chronicles");
    reveal_strlit("Ezra");
    reveal_strlit("Nehemiah");
    reveal_strlit("Esther");
    reveal_strlit("Job");
    reveal_strlit("Psalms");
    reveal_strlit("Proverbs");
    reveal_strlit("Ecclesiastes");
    reveal_strlit("Song of Solomon");
    reveal_strlit("Isaiah");
    reveal_strlit("Jeremiah");
    assert("1 Samuel"@[0] != "Jeremiah"@[0]);
    assert("2 Samuel"@[0] != "Jeremiah"@[0]);
    assert("Nehemiah"@[0] != "Jeremiah"@[0]);
    assert("Proverbs"@[0] != "Jeremiah"@[0]);
    assert(c[23] == "Jeremiah"@);
    assert(
        c[0] != "Jeremiah"@ && c[1] != "Jeremiah"@ && c[2] != "Jeremiah"@ && c[3] != "Jeremiah"@
        && c[4] != "Jeremiah"@ && c[5] != "Jeremiah"@ && c[6] != "Jeremiah"@ && c[7] != "Jeremiah"@
        && c[8] != "Jeremiah"@ && c[9] != "Jeremiah"@ && c[10] != "Jeremiah"@
        && c[11] != "Jeremiah"@ && c[12] != "Jeremiah"@ && c[13] != "Jeremiah"@
        && c[14] != "Jeremiah"@ && c[15] != "Jeremiah"@ && c[16] != "Jeremiah"@
        && c[17] != "Jeremiah"@ && c[18] != "Jeremiah"@ && c[19] != "Jeremiah"@
        && c[20] != "Jeremiah"@ && c[21] != "Jeremiah"@ && c[22] != "Jeremiah"@
    );
    lemma_position_from(c, "Jeremiah"@, 0, 23);
}

/// Lamentations is book 24.
proof fn key_of_lamentations()
    ensures
        canonical_key("Lamentations"@) == 24,
{
    let c = canonical_books();
    reveal_strlit("Genesis");
    reveal_strlit("Exodus");
    reveal_strlit("Leviticus");
    reveal_strlit("Numbers");
    reveal_strlit("Deuteronomy");
    reveal_strlit("Joshua");
    reveal_strlit("Judges");
    reveal_strlit("Ruth");
    reveal_strlit("1 Samuel");
    reveal_strlit("2 Samuel");
    reveal_strlit("1 Kings");
    reveal_strlit("2 Kings");
    reveal_strlit("1 Chronicles");
    reveal_strlit("2 Chronicles");
    reveal_strlit("Ezra");
    reveal_strlit("Nehemiah");
    reveal_strlit("Esther");
    reveal_strlit("Job");
    reveal_strlit("Psalms");
    reveal_strlit("Proverbs");
    reveal_strlit("Ecclesiastes");
    reveal_strlit("Song of Solomon");
    reveal_strlit("Isaiah");
    reveal_strlit("Jeremiah");
    reveal_strlit("Lamentations");
    assert("1 Chronicles"@[0] != "Lamentations"@[0]);
    assert("2 Chronicles"@[0] != "Lamentations"@[0]);
    assert("Ecclesiastes"@[0] != "Lamentations"@[0]);
    assert(c[24] == "Lamentations"@);
    assert(
        c[0] != "Lamentations"@ && c[1] != "Lamentations"@ && c[2] != "Lamentations"@
        && c[3] != "Lamentations"@ && c[4] != "Lamentations"@ && c[5] != "Lamentations"@
        && c[6] != "Lamentations"@ && c[7] != "Lamentations"@ && c[8] != "Lamentations"@
        && c[9] != "Lamentations"@ && c[10] != "Lamentations"@ && c[11] != "Lamentations"@
        && c[12] != "Lamentations"@ && c[13] != "Lamentations"@ && c[14] != "Lamentations"@
        && c[15] != "Lamentations"@ && c[16] != "Lamentations"@ && c[17] != "Lamentations"@
        && c[18] != "Lamentations"@ && c[19] != "Lamentations"@ && c[20] != "Lamentations"@
        && c[21] != "Lamentations"@ && c[22] != "Lamentations"@ && c[23] != "Lamentations"@
    );
    lemma_position_from(c, "Lamentations"@, 0, 24);
}

/// Ezekiel is book 25.
proof fn key_of_ezekiel()
    ensures
        canonical_key("Ezekiel"@) == 25,
{
    let c = canonical_books();
    reveal_strlit("Genesis");
    reveal_strlit("Exodus");
    reveal_strlit("Leviticus");
    reveal_strlit("Numbers");
    reveal_strlit("Deuteronomy");
    reveal_strlit("Joshua");
    reveal_strlit("Judges");
    reveal_strlit("Ruth");
    reveal_strlit("1 Samuel");
    reveal_strlit("2 Samuel");
    reveal_strlit("1 Kings");
    reveal_strlit("2 Kings");
    reveal_strlit("1 Chronicles");
    reveal_strlit("2 Chronicles");
    reveal_strlit("Ezra");
    reveal_strlit("Nehemiah");
    reveal_strlit("Esther");
    reveal_strlit("Job");
    reveal_strlit("Psalms");
    reveal_strlit("Proverbs");
    reveal_strlit("Ecclesiastes");
    reveal_strlit("Song of Solomon");
    reveal_strlit("Isaiah");
    reveal_strlit("Jeremiah");
    reveal_strlit("Lamentations");
    reveal_strlit("Ezekiel");
    assert("Genesis"@[0] != "Ezekiel"@[0]);
    assert("Numbers"@[0] != "Ezekiel"@[0]);
    assert("1 Kings"@[0] != "Ezekiel"@[0]);
    assert("2 Kings"@[0] != "Ezekiel"@[0]);
    assert(c[25] == "Ezekiel"@);
    assert(
        c[0] != "Ezekiel"@ && c[1] != "Ezekiel"@ && c[2] != "Ezekiel"@ && c[3] != "Ezekiel"@
        && c[4] != "Ezekiel"@ && c[5] != "Ezekiel"@ && c[6] != "Ezekiel"@ && c[7] != "Ezekiel"@
        && c[8] != "Ezekiel"@ && c[9] != "Ezekiel"@ && c[10] != "Ezekiel"@ && c[11] != "Ezekiel"@
        && c[12] != "Ezekiel"@ && c[13] != "Ezekiel"@ && c[14] != "Ezekiel"@ && c[15] != "Ezekiel"@
        && c[16] != "Ezekiel"@ && c[17] != "Ezekiel"@ && c[18] != "Ezekiel"@ && c[19] != "Ezekiel"@
        && c[20] != "Ezekiel"@ && c[21] != "Ezekiel"@ && c[22] != "Ezekiel"@ && c[23] != "Ezekiel"@
        && c[24] != "Ezekiel"@
    );
    lemma_position_from(c, "Ezekiel"@, 0, 25);
}

/// Daniel is book 26.
proof fn key_of_daniel()
    ensures
        canonical_key("Daniel"@) == 26,
{
    let c = canonical_books();
    reveal_strlit("Genesis");
    reveal_strlit("Exodus");
    reveal_strlit("Leviticus");
    reveal_strlit("Numbers");
    reveal_strlit("Deuteronomy");
    reveal_strlit("Joshua");
    reveal_strlit("Judges");
    reveal_strlit("Ruth");
    reveal_strlit("1 Samuel");
    reveal_strlit("2 Samuel");
    reveal_strlit("1 Kings");
    reveal_strlit("2 Kings");
    reveal_strlit("1 Chronicles");
    reveal_strlit("2 Chronicles");
    reveal_strlit("Ezra");
    reveal_strlit("Nehemiah");
    reveal_strlit("Esther");
    reveal_strlit("Job");
    reveal_strlit("Psalms");
    reveal_strlit("Proverbs");
    reveal_strlit("Ecclesiastes");
    reveal_strlit("Song of Solomon");
    reveal_strlit("Isaiah");
    reveal_strlit("Jeremiah");
    reveal_strlit("Lamentations");
    reveal_strlit("Ezekiel");
    reveal_strlit("Daniel");
    assert("Exodus"@[0] != "Daniel"@[0]);
    assert("Joshua"@[0] != "Daniel"@[0]);
    assert("Judges"@[0] != "Daniel"@[0]);
    assert("Esther"@[0] != "Daniel"@[0]);
    assert("Psalms"@[0] != "Daniel"@[0]);
    assert("Isaiah"@[0] != "Daniel"@[0]);
    assert(c[26] == "Daniel"@);
    assert(
        c[0] != "Daniel"@ && c[1] != "Daniel"@ && c[2] != "Daniel"@ && c[3] != "Daniel"@
        && c[4] != "Daniel"@ && c[5] != "Daniel"@ && c[6] != "Daniel"@ && c[7] != "Daniel"@
        && c[8] != "Daniel"@ && c[9] != "Daniel"@ && c[10] != "Daniel"@ && c[11] != "Daniel"@
        && c[12] != "Daniel"@ && c[13] != "Daniel"@ && c[14] != "Daniel"@ && c[15] != "Daniel"@
        && c[16] != "Daniel"@ && c[17] != "Daniel"@ && c[18] != "Daniel"@ && c[19] != "Daniel"@
        && c[20] != "Daniel"@ && c[21] != "Daniel"@ && c[22] != "Daniel"@ && c[23] != "Daniel"@
        && c[24] != "Daniel"@ && c[25] != "Daniel"@
    );
    lemma_position_from(c, "Daniel"@, 0, 26);
}

/// Hosea is book 27.
proof fn key_of_hosea()
    ensures
        canonical_key("Hosea"@) == 27,
{
    let c = canonical_books();
    reveal_strlit("Genesis");
    reveal_strlit("Exodus");
    reveal_strlit("Leviticus");
    reveal_strlit("Numbers");
    reveal_strlit("Deuteronomy");
    reveal_strlit("Joshua");
    reveal_strlit("Judges");
    reveal_strlit("Ruth");
    reveal_strlit("1 Samuel");
    reveal_strlit("2 Samuel");
    reveal_strlit("1 Kings");
    reveal_strlit("2 Kings");
    reveal_strlit("1 Chronicles");
    reveal_strlit("2 Chronicles");
    reveal_strlit("Ezra");
    reveal_strlit("Nehemiah");
    reveal_strlit("Esther");
    reveal_strlit("Job");
    reveal_strlit("Psalms");
    reveal_strlit("Proverbs");
    reveal_strlit("Ecclesiastes");
    reveal_strlit("Song of Solomon");
    reveal_strlit("Isaiah");
    reveal_strlit("Jeremiah");
    reveal_strlit("Lamentations");
    reveal_strlit("Ezekiel");
    reveal_strlit("Daniel");
    reveal_strlit("Hosea");
    assert(c[27] == "Hosea"@);
    assert(
        c[0] != "Hosea"@ && c[1] != "Hosea"@ && c[2] != "Hosea"@ && c[3] != "Hosea"@
        && c[4] != "Hosea"@ && c[5] != "Hosea"@ && c[6] != "Hosea"@ && c[7] != "Hosea"@
        && c[8] != "Hosea"@ && c[9] != "Hosea"@ && c[10] != "Hosea"@ && c[11] != "Hosea"@
        && c[12] != "Hosea"@ && c[13] != "Hosea"@ && c[14] != "Hosea"@ && c[15] != "Hosea"@
        && c[16] != "Hosea"@ && c[17] != "Hosea"@ && c[18] != "Hosea"@ && c[19] != "Hosea"@
        && c[20] != "Hosea"@ && c[21] != "Hosea"@ && c[22] != "Hosea"@ && c[23] != "Hosea"@
        && c[24] != "Hosea"@ && c[25] != "Hosea"@ && c[26] != "Hosea"@
    );
    lemma_position_from(c, "Hosea"@, 0, 27);
}

/// Joel is book 28.
proof fn key_of_joel()
    ensures
        canonical_key("Joel"@) == 28,
{
    let c = canonical_books();
    reveal_strlit("Genesis");
    reveal_strlit("Exodus");
    reveal_strlit("Leviticus");
    reveal_strlit("Numbers");
    reveal_strlit("Deuteronomy");
    reveal_strlit("Joshua");
    reveal_strlit("Judges");
    reveal_strlit("Ruth");
    reveal_strlit("1 Samuel");
    reveal_strlit("2 Samuel");
    reveal_strlit("1 Kings");
    reveal_strlit("2 Kings");
    reveal_strlit("1 Chronicles");
    reveal_strlit("2 Chronicles");
    reveal_strlit("Ezra");
    reveal_strlit("Nehemiah");
    reveal_strlit("Esther");
    reveal_strlit("Job");
    reveal_strlit("Psalms");
    reveal_strlit("Proverbs");
    reveal_strlit("Ecclesiastes");
    reveal_strlit("Song of Solomon");
    reveal_strlit("Isaiah");
    reveal_strlit("Jeremiah");
    reveal_strlit("Lamentations");
    reveal_strlit("Ezekiel");
    reveal_strlit("Daniel");
    reveal_strlit("Hosea");
    reveal_strlit("Joel");
    assert("Ruth"@[0] != "Joel"@[0]);
    assert("Ezra"@[0] != "Joel"@[0]);
    assert(c[28] == "Joel"@);
    assert(
        c[0] != "Joel"@ && c[1] != "Joel"@ && c[2] != "Joel"@ && c[3] != "Joel"@
        && c[4] != "Joel"@ && c[5] != "Joel"@ && c[6] != "Joel"@ && c[7] != "Joel"@
        && c[8] != "Joel"@ && c[9] != "Joel"@ && c[10] != "Joel"@ && c[11] != "Joel"@
        && c[12] != "Joel"@ && c[13] != "Joel"@ && c[14] != "Joel"@ && c[15] != "Joel"@
        && c[16] != "Joel"@ && c[17] != "Joel"@ && c[18] != "Joel"@ && c[19] != "Joel"@
        && c[20] != "Joel"@ && c[21] != "Joel"@ && c[22] != "Joel"@ && c[23] != "Joel"@
        && c[24] != "Joel"@ && c[25] != "Joel"@ && c[26] != "Joel"@ && c[27] != "Joel"@
    );
    lemma_position_from(c, "Joel"@, 0, 28);
}

/// Amos is book 29.
proof fn key_of_amos()
    ensures
        canonical_key("Amos"@) == 29,
{
    let c = canonical_books();
    reveal_strlit("Genesis");
    reveal_strlit("Exodus");
    reveal_strlit("Leviticus");
    reveal_strlit("Numbers");
    reveal_strlit("Deuteronomy");
    reveal_strlit("Joshua");
    reveal_strlit("Judges");
    reveal_strlit("Ruth");
    reveal_strlit("1 Samuel");
    reveal_strlit("2 Samuel");
    reveal_strlit("1 Kings");
    reveal_strlit("2 Kings");
    reveal_strlit("1 Chronicles");
    reveal_strlit("2 Chronicles");
    reveal_strlit("Ezra");
    reveal_strlit("Nehemiah");
    reveal_strlit("Esther");
    reveal_strlit("Job");
    reveal_strlit("Psalms");
    reveal_strlit("Proverbs");
    reveal_strlit("Ecclesiastes");
    reveal_strlit("Song of Solomon");
    reveal_strlit("Isaiah");
    reveal_strlit("Jeremiah");
    reveal_strlit("Lamentations");
    reveal_strlit("Ezekiel");
    reveal_strlit("Daniel");
    reveal_strlit("Hosea");
    reveal_strlit("Joel");
    reveal_strlit("Amos");
    assert("Ruth"@[0] != "Amos"@[0]);
    assert("Ezra"@[0] != "Amos"@[0]);
    assert("Joel"@[0] != "Amos"@[0]);
    assert(c[29] == "Amos"@);
    assert(
        c[0] != "Amos"@ && c[1] != "Amos"@ && c[2] != "Amos"@ && c[3] != "Amos"@
        && c[4] != "Amos"@ && c[5] != "Amos"@ && c[6] != "Amos"@ && c[7] != "Amos"@
        && c[8] != "Amos"@ && c[9] != "Amos"@ && c[10] != "Amos"@ && c[11] != "Amos"@
        && c[12] != "Amos"@ && c[13] != "Amos"@ && c[14] != "Amos"@ && c[15] != "Amos"@
        && c[16] != "Amos"@ && c[17] != "Amos"@ && c[18] != "Amos"@ && c[19] != "Amos"@
        && c[20] != "Amos"@ && c[21] != "Amos"@ && c[22] != "Amos"@ && c[23] != "Amos"@
        && c[24] != "Amos"@ && c[25] != "Amos"@ && c[26] != "Amos"@ && c[27] != "Amos"@
        && c[28] != "Amos"@
    );
    lemma_position_from(c, "Amos"@, 0, 29);
}

/// Obadiah is book 30.
proof fn key_of_obadiah()
    ensures
        canonical_key("Obadiah"@) == 30,
{
    let c = canonical_books();
    reveal_strlit("Genesis");
    reveal_strlit("Exodus");
    reveal_strlit("Leviticus");
    reveal_strlit("Numbers");
    reveal_strlit("Deuteronomy");
    reveal_strlit("Joshua");
    reveal_strlit("Judges");
    reveal_strlit("Ruth");
    reveal_strlit("1 Samuel");
    reveal_strlit("2 Samuel");
    reveal_strlit("1 Kings");
    reveal_strlit("2 Kings");
    reveal_strlit("1 Chronicles");
    reveal_strlit("2 Chronicles");
    reveal_strlit("Ezra");
    reveal_strlit("Nehemiah");
    reveal_strlit("Esther");
    reveal_strlit("Job");
    reveal_strlit("Psalms");
    reveal_strlit("Proverbs");
    reveal_strlit("Ecclesiastes");
    reveal_strlit("Song of Solomon");
    reveal_strlit("Isaiah");
    reveal_strlit("Jeremiah");
    reveal_strlit("Lamentations");
    reveal_strlit("Ezekiel");
    reveal_strlit("Daniel");
    reveal_strlit("Hosea");
    reveal_strlit("Joel");
    reveal_strlit("Amos");
    reveal_strlit("Obadiah");
    assert("Genesis"@[0] != "Obadiah"@[0]);
    assert("Numbers"@[0] != "Obadiah"@[0]);
    assert("1 Kings"@[0] != "Obadiah"@[0]);
    assert("2 Kings"@[0] != "Obadiah"@[0]);
    assert("Ezekiel"@[0] != "Obadiah"@[0]);
    assert(c[30] == "Obadiah"@);
    assert(
        c[0] != "Obadiah"@ && c[1] != "Obadiah"@ && c[2] != "Obadiah"@ && c[3] != "Obadiah"@
        && c[4] != "Obadiah"@ && c[5] != "Obadiah"@ && c[6] != "Obadiah"@ && c[7] != "Obadiah"@
        && c[8] != "Obadiah"@ && c[9] != "Obadiah"@ && c[10] != "Obadiah"@ && c[11] != "Obadiah"@
        && c[12] != "Obadiah"@ && c[13] != "Obadiah"@ && c[14] != "Obadiah"@ && c[15] != "Obadiah"@
        && c[16] != "Obadiah"@ && c[17] != "Obadiah"@ && c[18] != "Obadiah"@ && c[19] != "Obadiah"@
        && c[20] != "Obadiah"@ && c[21] != "Obadiah"@ && c[22] != "Obadiah"@ && c[23] != "Obadiah"@
        && c[24] != "Obadiah"@ && c[25] != "Obadiah"@ && c[26] != "Obadiah"@ && c[27] != "Obadiah"@
        && c[28] != "Obadiah"@ && c[29] != "Obadiah"@
    );
    lemma_position_from(c, "Obadiah"@, 0, 30);
}

/// Jonah is book 31.
proof fn key_of_jonah()
    ensures
        canonical_key("Jonah"@) == 31,
{
    let c = canonical_books();
    reveal_strlit("Genesis");
    reveal_strlit("Exodus");
    reveal_strlit("Leviticus");
    reveal_strlit("Numbers");
    reveal_strlit("Deuteronomy");
    reveal_strlit("Joshua");
    reveal_strlit("Judges");
    reveal_strlit("Ruth");
    reveal_strlit("1 Samuel");
    reveal_strlit("2 Samuel");
    reveal_strlit("1 Kings");
    reveal_strlit("2 Kings");
    reveal_strlit("1 Chronicles");
    reveal_strlit("2 Chronicles");
    reveal_strlit("Ezra");
    reveal_strlit("Nehemiah");
    reveal_strlit("Esther");
    reveal_strlit("Job");
    reveal_strlit("Psalms");
    reveal_strlit("Proverbs");
    reveal_strlit("Ecclesiastes");
    reveal_strlit("Song of Solomon");
    reveal_strlit("Isaiah");
    reveal_strlit("Jeremiah");
    reveal_strlit("Lamentations");
    reveal_strlit("Ezekiel");
    reveal_strlit("Daniel");
    reveal_strlit("Hosea");
    reveal_strlit("Joel");
    reveal_strlit("Amos");
    reveal_strlit("Obadiah");
    reveal_strlit("Jonah");
    assert("Hosea"@[0] != "Jonah"@[0]);
    assert(c[31] == "Jonah"@);
    assert(
        c[0] != "Jonah"@ && c[1] != "Jonah"@ && c[2] != "Jonah"@ && c[3] != "Jonah"@
        && c[4] != "Jonah"@ && c[5] != "Jonah"@ && c[6] != "Jonah"@ && c[7] != "Jonah"@
        && c[8] != "Jonah"@ && c[9] != "Jonah"@ && c[10] != "Jonah"@ && c[11] != "Jonah"@
        && c[12] != "Jonah"@ && c[13] != "Jonah"@ && c[14] != "Jonah"@ && c[15] != "Jonah"@
        && c[16] != "Jonah"@ && c[17] != "Jonah"@ && c[18] != "Jonah"@ && c[19] != "Jonah"@
        && c[20] != "Jonah"@ && c[21] != "Jonah"@ && c[22] != "Jonah"@ && c[23] != "Jonah"@
        && c[24] != "Jonah"@ && c[25] != "Jonah"@ && c[26] != "Jonah"@ && c[27] != "Jonah"@
        && c[28] != "Jonah"@ && c[29] != "Jonah"@ && c[30] != "Jonah"@
    );
    lemma_position_from(c, "Jonah"@, 0, 31);
}

/// Micah is book 32.
proof fn key_of_micah()
    ensures
        canonical_key("Micah"@) == 32,
{
    let c = canonical_books();
    reveal_strlit("Genesis");
    reveal_strlit("Exodus");
    reveal_strlit("Leviticus");
    reveal_strlit("Numbers");
    reveal_strlit("Deuteronomy");
    reveal_strlit("Joshua");
    reveal_strlit("Judges");
    reveal_strlit("Ruth");
    reveal_strlit("1 Samuel");
    reveal_strlit("2 Samuel");
    reveal_strlit("1 Kings");
    reveal_strlit("2 Kings");
    reveal_strlit("1 Chronicles");
    reveal_strlit("2 Chronicles");
    reveal_strlit("Ezra");
    reveal_strlit("Nehemiah");
    reveal_strlit("Esther");
    reveal_strlit("Job");
    reveal_strlit("Psalms");
    reveal_strlit("Proverbs");
    reveal_strlit("Ecclesiastes");
    reveal_strlit("Song of Solomon");
    reveal_strlit("Isaiah");
    reveal_strlit("Jeremiah");
    reveal_strlit("Lamentations");
    reveal_strlit("Ezekiel");
    reveal_strlit("Daniel");
    reveal_strlit("Hosea");
    reveal_strlit("Joel");
    reveal_strlit("Amos");
    reveal_strlit("Obadiah");
    reveal_strlit("Jonah");
    reveal_strlit("Micah");
    assert("Hosea"@[0] != "Micah"@[0]);
    assert("Jonah"@[0] != "Micah"@[0]);
    assert(c[32] == "Micah"@);
    assert(
        c[0] != "Micah"@ && c[1] != "Micah"@ && c[2] != "Micah"@ && c[3] != "Micah"@
        && c[4] != "Micah"@ && c[5] != "Micah"@ && c[6] != "Micah"@ && c[7] != "Micah"@
        && c[8] != "Micah"@ && c[9] != "Micah"@ && c[10] != "Micah"@ && c[11] != "Micah"@
        && c[12] != "Micah"@ && c[13] != "Micah"@ && c[14] != "Micah"@ && c[15] != "Micah"@
        && c[16] != "Micah"@ && c[17] != "Micah"@ && c[18] != "Micah"@ && c[19] != "Micah"@
        && c[20] != "Micah"@ && c[21] != "Micah"@ && c[22] != "Micah"@ && c[23] != "Micah"@
        && c[24] != "Micah"@ && c[25] != "Micah"@ && c[26] != "Micah"@ && c[27] != "Micah"@
        && c[28] != "Micah"@ && c[29] != "Micah"@ && c[30] != "Micah"@ && c[31] != "Micah"@
    );
    lemma_position_from(c, "Micah"@, 0, 32);
}

/// Nahum is book 33.
proof fn key_of_nahum()
    ensures
        canonical_key("Nahum"@) == 33,
{
    let c = canonical_books();
    reveal_strlit("Genesis");
    reveal_strlit("Exodus");
    reveal_strlit("Leviticus");
    reveal_strlit("Numbers");
    reveal_strlit("Deuteronomy");
    reveal_strlit("Joshua");
    reveal_strlit("Judges");
    reveal_strlit("Ruth");
    reveal_strlit("1 Samuel");
    reveal_strlit("2 Samuel");
    reveal_strlit("1 Kings");
    reveal_strlit("2 Kings");
    reveal_strlit("1 Chronicles");
    reveal_strlit("2 Chronicles");
    reveal_strlit("Ezra");
    reveal_strlit("Nehemiah");
    reveal_strlit("Esther");
    reveal_strlit("Job");
    reveal_strlit("Psalms");
    reveal_strlit("Proverbs");
    reveal_strlit("Ecclesiastes");
    reveal_strlit("Song of Solomon");
    reveal_strlit("Isaiah");
    reveal_strlit("Jeremiah");
    reveal_strlit("Lamentations");
    reveal_strlit("Ezekiel");
    reveal_strlit("Daniel");
    reveal_strlit("Hosea");
    reveal_strlit("Joel");
    reveal_strlit("Amos");
    reveal_strlit("Obadiah");
    reveal_strlit("Jonah");
    reveal_strlit("Micah");
    reveal_strlit("Nahum");
    assert("Hosea"@[0] != "Nahum"@[0]);
    assert("Jonah"@[0] != "Nahum"@[0]);
    assert("Micah"@[0] != "Nahum"@[0]);
    assert(c[33] == "Nahum"@);
    assert(
        c[0] != "Nahum"@ && c[1] != "Nahum"@ && c[2] != "Nahum"@ && c[3] != "Nahum"@
        && c[4] != "Nahum"@ && c[5] != "Nahum"@ && c[6] != "Nahum"@ && c[7] != "Nahum"@
        && c[8] != "Nahum"@ && c[9] != "Nahum"@ && c[10] != "Nahum"@ && c[11] != "Nahum"@
        && c[12] != "Nahum"@ && c[13] != "Nahum"@ && c[14] != "Nahum"@ && c[15] != "Nahum"@
        && c[16] != "Nahum"@ && c[17] != "Nahum"@ && c[18] != "Nahum"@ && c[19] != "Nahum"@
        && c[20] != "Nahum"@ && c[21] != "Nahum"@ && c[22] != "Nahum"@ && c[23] != "Nahum"@
        && c[24] != "Nahum"@ && c[25] != "Nahum"@ && c[26] != "Nahum"@ && c[27] != "Nahum"@
        && c[28] != "Nahum"@ && c[29] != "Nahum"@ && c[30] != "Nahum"@ && c[31] != "Nahum"@
        && c[32] != "Nahum"@
    );
    lemma_position_from(c, "Nahum"@, 0, 33);
}

/// Habakkuk is book 34.
proof fn key_of_habakkuk()
    ensures
        canonical_key("Habakkuk"@) == 34,
{
    let c = canonical_books();
    reveal_strlit("Genesis");
    reveal_strlit("Exodus");
    reveal_strlit("Leviticus");
    reveal_strlit("Numbers");
    reveal_strlit("Deuteronomy");
    reveal_strlit("Joshua");
    reveal_strlit("Judges");
    reveal_strlit("Ruth");
    reveal_strlit("1 Samuel");
    reveal_strlit("2 Samuel");
    reveal_strlit("1 Kings");
    reveal_strlit("2 Kings");
    reveal_strlit("1 Chronicles");
    reveal_strlit("2 Chronicles");
    reveal_strlit("Ezra");
    reveal_strlit("Nehemiah");
    reveal_strlit("Esther");
    reveal_strlit("Job");
    reveal_strlit("Psalms");
    reveal_strlit("Proverbs");
    reveal_strlit("Ecclesiastes");
    reveal_strlit("Song of Solomon");
    reveal_strlit("Isaiah");
    reveal_strlit("Jeremiah");
    reveal_strlit("Lamentations");
    reveal_strlit("Ezekiel");
    reveal_strlit("Daniel");
    reveal_strlit("Hosea");
    reveal_strlit("Joel");
    reveal_strlit("Amos");
    reveal_strlit("Obadiah");
    reveal_strlit("Jonah");
    reveal_strlit("Micah");
    reveal_strlit("Nahum");
    reveal_strlit("Habakkuk");
    assert("1 Samuel"@[0] != "Habakkuk"@[0]);
    assert("2 Samuel"@[0] != "Habakkuk"@[0]);
    assert("Nehemiah"@[0] != "Habakkuk"@[0]);
    assert("Proverbs"@[0] != "Habakkuk"@[0]);
    assert("Jeremiah"@[0] != "Habakkuk"@[0]);
    assert(c[34] == "Habakkuk"@);
    assert(
        c[0] != "Habakkuk"@ && c[1] != "Habakkuk"@ && c[2] != "Habakkuk"@ && c[3] != "Habakkuk"@
        && c[4] != "Habakkuk"@ && c[5] != "Habakkuk"@ && c[6] != "Habakkuk"@ && c[7] != "Habakkuk"@
        && c[8] != "Habakkuk"@ && c[9] != "Habakkuk"@ && c[10] != "Habakkuk"@
        && c[11] != "Habakkuk"@ && c[12] != "Habakkuk"@ && c[13] != "Habakkuk"@
        && c[14] != "Habakkuk"@ && c[15] != "Habakkuk"@ && c[16] != "Habakkuk"@
        && c[17] != "Habakkuk"@ && c[18] != "Habakkuk"@ && c[19] != "Habakkuk"@
        && c[20] != "Habakkuk"@ && c[21] != "Habakkuk"@ && c[22] != "Habakkuk"@
        && c[23] != "Habakkuk"@ && c[24] != "Habakkuk"@ && c[25] != "Habakkuk"@
        && c[26] != "Habakkuk"@ && c[27] != "Habakkuk"@ && c[28] != "Habakkuk"@
        && c[29] != "Habakkuk"@ && c[30] != "Habakkuk"@ && c[31] != "Habakkuk"@
        && c[32] != "Habakkuk"@ && c[33] != "Habakkuk"@
    );
    lemma_position_from(c, "Habakkuk"@, 0, 34);
}

/// Zephaniah is book 35.
proof fn key_of_zephaniah()
    ensures
        canonical_key("Zephaniah"@) == 35,
{
    let c = canonical_books();
    reveal_strlit("Genesis");
    reveal_strlit("Exodus");
    reveal_strlit("Leviticus");
    reveal_strlit("Numbers");
    reveal_strlit("Deuteronomy");
    reveal_strlit("Joshua");
    reveal_strlit("Judges");
    reveal_strlit("Ruth");
    reveal_strlit("1 Samuel");
    reveal_strlit("2 Samuel");
    reveal_strlit("1 Kings");
    reveal_strlit("2 Kings");
    reveal_strlit("1 Chronicles");
    reveal_strlit("2 Chronicles");
    reveal_strlit("Ezra");
    reveal_strlit("Nehemiah");
    reveal_strlit("Esther");
    reveal_strlit("Job");
    reveal_strlit("Psalms");
    reveal_strlit("Proverbs");
    reveal_strlit("Ecclesiastes");
    reveal_strlit("Song of Solomon");
    reveal_strlit("Isaiah");
    reveal_strlit("Jeremiah");
    reveal_strlit("Lamentations");
    reveal_strlit("Ezekiel");
    reveal_strlit("Daniel");
    reveal_strlit("Hosea");
    reveal_strlit("Joel");
    reveal_strlit("Amos");
    reveal_strlit("Obadiah");
    reveal_strlit("Jonah");
    reveal_strlit("Micah");
    reveal_strlit("Nahum");
    reveal_strlit("Habakkuk");
    reveal_strlit("Zephaniah");
    assert("Leviticus"@[0] != "Zephaniah"@[0]);
    assert(c[35] == "Zephaniah"@);
    assert(
        c[0] != "Zephaniah"@ && c[1] != "Zephaniah"@ && c[2] != "Zephaniah"@
        && c[3] != "Zephaniah"@ && c[4] != "Zephaniah"@ && c[5] != "Zephaniah"@
        && c[6] != "Zephaniah"@ && c[7] != "Zephaniah"@ && c[8] != "Zephaniah"@
        && c[9] != "Zephaniah"@ && c[10] != "Zephaniah"@ && c[11] != "Zephaniah"@
        && c[12] != "Zephaniah"@ && c[13] != "Zephaniah"@ && c[14] != "Zephaniah"@
        && c[15] != "Zephaniah"@ && c[16] != "Zephaniah"@ && c[17] != "Zephaniah"@
        && c[18] != "Zephaniah"@ && c[19] != "Zephaniah"@ && c[20] != "Zephaniah"@
        && c[21] != "Zephaniah"@ && c[22] != "Zephaniah"@ && c[23] != "Zephaniah"@
        && c[24] != "Zephaniah"@ && c[25] != "Zephaniah"@ && c[26] != "Zephaniah"@
        && c[27] != "Zephaniah"@ && c[28] != "Zephaniah"@ && c[29] != "Zephaniah"@
        && c[30] != "Zephaniah"@ && c[31] != "Zephaniah"@ && c[32] != "Zephaniah"@
        && c[33] != "Zephaniah"@ && c[34] != "Zephaniah"@
    );
    lemma_position_from(c, "Zephaniah"@, 0, 35);
}

/// Haggai is book 36.
proof fn key_of_haggai()
    ensures
        canonical_key("Haggai"@) == 36,
{
    let c = canonical_books();
    reveal_strlit("Genesis");
    reveal_strlit("Exodus");
    reveal_strlit("Leviticus");
    reveal_strlit("Numbers");
    reveal_strlit("Deuteronomy");
    reveal_strlit("Joshua");
    reveal_strlit("Judges");
    reveal_strlit("Ruth");
    reveal_strlit("1 Samuel");
    reveal_strlit("2 Samuel");
    reveal_strlit("1 Kings");
    reveal_strlit("2 Kings");
    reveal_strlit("1 Chronicles");
    reveal_strlit("2 Chronicles");
    reveal_strlit("Ezra");
    reveal_strlit("Nehemiah");
    reveal_strlit("Esther");
    reveal_strlit("Job");
    reveal_strlit("Psalms");
    reveal_strlit("Proverbs");
    reveal_strlit("Ecclesiastes");
    reveal_strlit("Song of Solomon");
    reveal_strlit("Isaiah");
    reveal_strlit("Jeremiah");
    reveal_strlit("Lamentations");
    reveal_strlit("Ezekiel");
    reveal_strlit("Daniel");
    reveal_strlit("Hosea");
    reveal_strlit("Joel");
    reveal_strlit("Amos");
    reveal_strlit("Obadiah");
    reveal_strlit("Jonah");
    reveal_strlit("Micah");
    reveal_strlit("Nahum");
    reveal_strlit("Habakkuk");
    reveal_strlit("Zephaniah");
    reveal_strlit("Haggai");
    assert("Exodus"@[0] != "Haggai"@[0]);
    assert("Joshua"@[0] != "Haggai"@[0]);
    assert("Judges"@[0] != "Haggai"@[0]);
    assert("Esther"@[0] != "Haggai"@[0]);
    assert("Psalms"@[0] != "Haggai"@[0]);
    assert("Isaiah"@[0] != "Haggai"@[0]);
    assert("Daniel"@[0] != "Haggai"@[0]);
    assert(c[36] == "Haggai"@);
    assert(
        c[0] != "Haggai"@ && c[1] != "Haggai"@ && c[2] != "Haggai"@ && c[3] != "Haggai"@
        && c[4] != "Haggai"@ && c[5] != "Haggai"@ && c[6] != "Haggai"@ && c[7] != "Haggai"@
        && c[8] != "Haggai"@ && c[9] != "Haggai"@ && c[10] != "Haggai"@ && c[11] != "Haggai"@
        && c[12] != "Haggai"@ && c[13] != "Haggai"@ && c[14] != "Haggai"@ && c[15] != "Haggai"@
        && c[16] != "Haggai"@ && c[17] != "Haggai"@ && c[18] != "Haggai"@ && c[19] != "Haggai"@
        && c[20] != "Haggai"@ && c[21] != "Haggai"@ && c[22] != "Haggai"@ && c[23] != "Haggai"@
        && c[24] != "Haggai"@ && c[25] != "Haggai"@ && c[26] != "Haggai"@ && c[27] != "Haggai"@
        && c[28] != "Haggai"@ && c[29] != "Haggai"@ && c[30] != "Haggai"@ && c[31] != "Haggai"@
        && c[32] != "Haggai"@ && c[33] != "Haggai"@ && c[34] != "Haggai"@ && c[35] != "Haggai"@
    );
    lemma_position_from(c, "Haggai"@, 0, 36);
}

/// Zechariah is book 37.
proof fn key_of_zechariah()
    ensures
        canonical_key("Zechariah"@) == 37,
{
    let c = canonical_books();
    reveal_strlit("Genesis");
    reveal_strlit("Exodus");
    reveal_strlit("Leviticus");
    reveal_strlit("Numbers");
    reveal_strlit("Deuteronomy");
    reveal_strlit("Joshua");
    reveal_strlit("Judges");
    reveal_strlit("Ruth");
    reveal_strlit("1 Samuel");
    reveal_strlit("2 Samuel");
    reveal_strlit("1 Kings");
    reveal_strlit("2 Kings");
    reveal_strlit("1 Chronicles");
    reveal_strlit("2 Chronicles");
    reveal_strlit("Ezra");
    reveal_strlit("Nehemiah");
    reveal_strlit("Esther");
    reveal_strlit("Job");
    reveal_strlit("Psalms");
    reveal_strlit("Proverbs");
    reveal_strlit("Ecclesiastes");
    reveal_strlit("Song of Solomon");
    reveal_strlit("Isaiah");
    reveal_strlit("Jeremiah");
    reveal_strlit("Lamentations");
    reveal_strlit("Ezekiel");
    reveal_strlit("Daniel");
    reveal_strlit("Hosea");
    reveal_strlit("Joel");
    reveal_strlit("Amos");
    reveal_strlit("Obadiah");
    reveal_strlit("Jonah");
    reveal_strlit("Micah");
    reveal_strlit("Nahum");
    reveal_strlit("Habakkuk");
    reveal_strlit("Zephaniah");
    reveal_strlit("Haggai");
    reveal_strlit("Zechariah");
    assert("Leviticus"@[0] != "Zechariah"@[0]);
    assert("Zephaniah"@[2] != "Zechariah"@[2]);
    assert(c[37] == "Zechariah"@);
    assert(
        c[0] != "Zechariah"@ && c[1] != "Zechariah"@ && c[2] != "Zechariah"@
        && c[3] != "Zechariah"@ && c[4] != "Zechariah"@ && c[5] != "Zechariah"@
        && c[6] != "Zechariah"@ && c[7] != "Zechariah"@ && c[8] != "Zechariah"@
        && c[9] != "Zechariah"@ && c[10] != "Zechariah"@ && c[11] != "Zechariah"@
        && c[12] != "Zechariah"@ && c[13] != "Zechariah"@ && c[14] != "Zechariah"@
        && c[15] != "Zechariah"@ && c[16] != "Zechariah"@ && c[17] != "Zechariah"@
        && c[18] != "Zechariah"@ && c[19] != "Zechariah"@ && c[20] != "Zechariah"@
        && c[21] != "Zechariah"@ && c[22] != "Zechariah"@ && c[23] != "Zechariah"@
        && c[24] != "Zechariah"@ && c[25] != "Zechariah"@ && c[26] != "Zechariah"@
        && c[27] != "Zechariah"@ && c[28] != "Zechariah"@ && c[29] != "Zechariah"@
        && c[30] != "Zechariah"@ && c[31] != "Zechariah"@ && c[32] != "Zechariah"@
        && c[33] != "Zechariah"@ && c[34] != "Zechariah"@ && c[35] != "Zechariah"@
        && c[36] != "Zechariah"@
    );
    lemma_position_from(c, "Zechariah"@, 0, 37);
}

/// Malachi is book 38.
proof fn key_of_malachi()
    ensures
        canonical_key("Malachi"@) == 38,
{
    let c = canonical_books();
    reveal_strlit("Genesis");
    reveal_strlit("Exodus");
    reveal_strlit("Leviticus");
    reveal_strlit("Numbers");
    reveal_strlit("Deuteronomy");
    reveal_strlit("Joshua");
    reveal_strlit("Judges");
    reveal_strlit("Ruth");
    reveal_strlit("1 Samuel");
    reveal_strlit("2 Samuel");
    reveal_strlit("1 Kings");
    reveal_strlit("2 Kings");
    reveal_strlit("1 Chronicles");
    reveal_strlit("2 Chronicles");
    reveal_strlit("Ezra");
    reveal_strlit("Nehemiah");
    reveal_strlit("Esther");
    reveal_strlit("Job");
    reveal_strlit("Psalms");
    reveal_strlit("Proverbs");
    reveal_strlit("Ecclesiastes");
    reveal_strlit("Song of Solomon");
    reveal_strlit("Isaiah");
    reveal_strlit("Jeremiah");
    reveal_strlit("Lamentations");
    reveal_strlit("Ezekiel");
    reveal_strlit("Daniel");
    reveal_strlit("Hosea");
    reveal_strlit("Joel");
    reveal_strlit("Amos");
    reveal_strlit("Obadiah");
    reveal_strlit("Jonah");
    reveal_strlit("Micah");
    reveal_strlit("Nahum");
    reveal_strlit("Habakkuk");
    reveal_strlit("Zephaniah");
    reveal_strlit("Haggai");
    reveal_strlit("Zechariah");
    reveal_strlit("Malachi");
    assert("Genesis"@[0] != "Malachi"@[0]);
    assert("Numbers"@[0] != "Malachi"@[0]);
    assert("1 Kings"@[0] != "Malachi"@[0]);
    assert("2 Kings"@[0] != "Malachi"@[0]);
    assert("Ezekiel"@[0] != "Malachi"@[0]);
    assert("Obadiah"@[0] != "Malachi"@[0]);
    assert(c[38] == "Malachi"@);
    assert(
        c[0] != "Malachi"@ && c[1] != "Malachi"@ && c[2] != "Malachi"@ && c[3] != "Malachi"@
        && c[4] != "Malachi"@ && c[5] != "Malachi"@ && c[6] != "Malachi"@ && c[7] != "Malachi"@
        && c[8] != "Malachi"@ && c[9] != "Malachi"@ && c[10] != "Malachi"@ && c[11] != "Malachi"@
        && c[12] != "Malachi"@ && c[13] != "Malachi"@ && c[14] != "Malachi"@ && c[15] != "Malachi"@
        && c[16] != "Malachi"@ && c[17] != "Malachi"@ && c[18] != "Malachi"@ && c[19] != "Malachi"@
        && c[20] != "Malachi"@ && c[21] != "Malachi"@ && c[22] != "Malachi"@ && c[23] != "Malachi"@
        && c[24] != "Malachi"@ && c[25] != "Malachi"@ && c[26] != "Malachi"@ && c[27] != "Malachi"@
        && c[28] != "Malachi"@ && c[29] != "Malachi"@ && c[30] != "Malachi"@ && c[31] != "Malachi"@
        && c[32] != "Malachi"@ && c[33] != "Malachi"@ && c[34] != "Malachi"@ && c[35] != "Malachi"@
        && c[36] != "Malachi"@ && c[37] != "Malachi"@
    );
    lemma_position_from(c, "Malachi"@, 0, 38);
}

/// Matthew is book 39.
proof fn key_of_matthew()
    ensures
        canonical_key("Matthew"@) == 39,
{
    let c = canonical_books();
    reveal_strlit("Genesis");
    reveal_strlit("Exodus");
    reveal_strlit("Leviticus");
    reveal_strlit("Numbers");
    reveal_strlit("Deuteronomy");
    reveal_strlit("Joshua");
    reveal_strlit("Judges");
    reveal_strlit("Ruth");
    reveal_strlit("1 Samuel");
    reveal_strlit("2 Samuel");
    reveal_strlit("1 Kings");
    reveal_strlit("2 Kings");
    reveal_strlit("1 Chronicles");
    reveal_strlit("2 Chronicles");
    reveal_strlit("Ezra");
    reveal_strlit("Nehemiah");
    reveal_strlit("Esther");
    reveal_strlit("Job");
    reveal_strlit("Psalms");
    reveal_strlit("Proverbs");
    reveal_strlit("Ecclesiastes");
    reveal_strlit("Song of Solomon");
    reveal_strlit("Isaiah");
    reveal_strlit("Jeremiah");
    reveal_strlit("Lamentations");
    reveal_strlit("Ezekiel");
    reveal_strlit("Daniel");
    reveal_strlit("Hosea");
    reveal_strlit("Joel");
    reveal_strlit("Amos");
    reveal_strlit("Obadiah");
    reveal_strlit("Jonah");
    reveal_strlit("Micah");
    reveal_strlit("Nahum");
    reveal_strlit("Habakkuk");
    reveal_strlit("Zephaniah");
    reveal_strlit("Haggai");
    reveal_strlit("Zechariah");
    reveal_strlit("Malachi");
    reveal_strlit("Matthew");
    assert("Genesis"@[0] != "Matthew"@[0]);
    assert("Numbers"@[0] != "Matthew"@[0]);
    assert("1 Kings"@[0] != "Matthew"@[0]);
    assert("2 Kings"@[0] != "Matthew"@[0]);
    assert("Ezekiel"@[0] != "Matthew"@[0]);
    assert("Obadiah"@[0] != "Matthew"@[0]);
    assert("Malachi"@[2] != "Matthew"@[2]);
    assert(c[39] == "Matthew"@);
    assert(
        c[0] != "Matthew"@ && c[1] != "Matthew"@ && c[2] != "Matthew"@ && c[3] != "Matthew"@
        && c[4] != "Matthew"@ && c[5] != "Matthew"@ && c[6] != "Matthew"@ && c[7] != "Matthew"@
        && c[8] != "Matthew"@ && c[9] != "Matthew"@ && c[10] != "Matthew"@ && c[11] != "Matthew"@
        && c[12] != "Matthew"@ && c[13] != "Matthew"@ && c[14] != "Matthew"@ && c[15] != "Matthew"@
        && c[16] != "Matthew"@ && c[17] != "Matthew"@ && c[18] != "Matthew"@ && c[19] != "Matthew"@
        && c[20] != "Matthew"@ && c[21] != "Matthew"@ && c[22] != "Matthew"@ && c[23] != "Matthew"@
        && c[24] != "Matthew"@ && c[25] != "Matthew"@ && c[26] != "Matthew"@ && c[27] != "Matthew"@
        && c[28] != "Matthew"@ && c[29] != "Matthew"@ && c[30] != "Matthew"@ && c[31] != "Matthew"@
        && c[32] != "Matthew"@ && c[33] != "Matthew"@ && c[34] != "Matthew"@ && c[35] != "Matthew"@
        && c[36] != "Matthew"@ && c[37] != "Matthew"@ && c[38] != "Matthew"@
    );
    lemma_position_from(c, "Matthew"@, 0, 39);
}

/// Mark is book 40.
proof fn key_of_mark()
    ensures
        canonical_key("Mark"@) == 40,
{
    let c = canonical_books();
    reveal_strlit("Genesis");
    reveal_strlit("Exodus");
    reveal_strlit("Leviticus");
    reveal_strlit("Numbers");
    reveal_strlit("Deuteronomy");
    reveal_strlit("Joshua");
    reveal_strlit("Judges");
    reveal_strlit("Ruth");
    reveal_strlit("1 Samuel");
    reveal_strlit("2 Samuel");
    reveal_strlit("1 Kings");
    reveal_strlit("2 Kings");
    reveal_strlit("1 Chronicles");
    reveal_strlit("2 Chronicles");
    reveal_strlit("Ezra");
    reveal_strlit("Nehemiah");
    reveal_strlit("Esther");
    reveal_strlit("Job");
    reveal_strlit("Psalms");
    reveal_strlit("Proverbs");
    reveal_strlit("Ecclesiastes");
    reveal_strlit("Song of Solomon");
    reveal_strlit("Isaiah");
    reveal_strlit("Jeremiah");
    reveal_strlit("Lamentations");
    reveal_strlit("Ezekiel");
    reveal_strlit("Daniel");
    reveal_strlit("Hosea");
    reveal_strlit("Joel");
    reveal_strlit("Amos");
    reveal_strlit("Obadiah");
    reveal_strlit("Jonah");
    reveal_strlit("Micah");
    reveal_strlit("Nahum");
    reveal_strlit("Habakkuk");
    reveal_strlit("Zephaniah");
    reveal_strlit("Haggai");
    reveal_strlit("Zechariah");
    reveal_strlit("Malachi");
    reveal_strlit("Matthew");
    reveal_strlit("Mark");
    assert("Ruth"@[0] != "Mark"@[0]);
    assert("Ezra"@[0] != "Mark"@[0]);
    assert("Joel"@[0] != "Mark"@[0]);
    assert("Amos"@[0] != "Mark"@[0]);
    assert(c[40] == "Mark"@);
    assert(
        c[0] != "Mark"@ && c[1] != "Mark"@ && c[2] != "Mark"@ && c[3] != "Mark"@
        && c[4] != "Mark"@ && c[5] != "Mark"@ && c[6] != "Mark"@ && c[7] != "Mark"@
        && c[8] != "Mark"@ && c[9] != "Mark"@ && c[10] != "Mark"@ && c[11] != "Mark"@
        && c[12] != "Mark"@ && c[13] != "Mark"@ && c[14] != "Mark"@ && c[15] != "Mark"@
        && c[16] != "Mark"@ && c[17] != "Mark"@ && c[18] != "Mark"@ && c[19] != "Mark"@
        && c[20] != "Mark"@ && c[21] != "Mark"@ && c[22] != "Mark"@ && c[23] != "Mark"@
        && c[24] != "Mark"@ && c[25] != "Mark"@ && c[26] != "Mark"@ && c[27] != "Mark"@
        && c[28] != "Mark"@ && c[29] != "Mark"@ && c[30] != "Mark"@ && c[31] != "Mark"@
        && c[32] != "Mark"@ && c[33] != "Mark"@ && c[34] != "Mark"@ && c[35] != "Mark"@
        && c[36] != "Mark"@ && c[37] != "Mark"@ && c[38] != "Mark"@ && c[39] != "Mark"@
    );
    lemma_position_from(c, "Mark"@, 0, 40);
}

/// Luke is book 41.
proof fn key_of_luke()
    ensures
        canonical_key("Luke"@) == 41,
{
    let c = canonical_books();
    reveal_strlit("Genesis");
    reveal_strlit("Exodus");
    reveal_strlit("Leviticus");
    reveal_strlit("Numbers");
    reveal_strlit("Deuteronomy");
    reveal_strlit("Joshua");
    reveal_strlit("Judges");
    reveal_strlit("Ruth");
    reveal_strlit("1 Samuel");
    reveal_strlit("2 Samuel");
    reveal_strlit("1 Kings");
    reveal_strlit("2 Kings");
    reveal_strlit("1 Chronicles");
    reveal_strlit("2 Chronicles");
    reveal_strlit("Ezra");
    reveal_strlit("Nehemiah");
    reveal_strlit("Esther");
    reveal_strlit("Job");
    reveal_strlit("Psalms");
    reveal_strlit("Proverbs");
    reveal_strlit("Ecclesiastes");
    reveal_strlit("Song of Solomon");
    reveal_strlit("Isaiah");
    reveal_strlit("Jeremiah");
    reveal_strlit("Lamentations");
    reveal_strlit("Ezekiel");
    reveal_strlit("Daniel");
    reveal_strlit("Hosea");
    reveal_strlit("Joel");
    reveal_strlit("Amos");
    reveal_strlit("Obadiah");
    reveal_strlit("Jonah");
    reveal_strlit("Micah");
    reveal_strlit("Nahum");
    reveal_strlit("Habakkuk");
    reveal_strlit("Zephaniah");
    reveal_strlit("Haggai");
    reveal_strlit("Zechariah");
    reveal_strlit("Malachi");
    reveal_strlit("Matthew");
    reveal_strlit("Mark");
    reveal_strlit("Luke");
    assert("Ruth"@[0] != "Luke"@[0]);
    assert("Ezra"@[0] != "Luke"@[0]);
    assert("Joel"@[0] != "Luke"@[0]);
    assert("Amos"@[0] != "Luke"@[0]);
    assert("Mark"@[0] != "Luke"@[0]);
    assert(c[41] == "Luke"@);
    assert(
        c[0] != "Luke"@ && c[1] != "Luke"@ && c[2] != "Luke"@ && c[3] != "Luke"@
        && c[4] != "Luke"@ && c[5] != "Luke"@ && c[6] != "Luke"@ && c[7] != "Luke"@
        && c[8] != "Luke"@ && c[9] != "Luke"@ && c[10] != "Luke"@ && c[11] != "Luke"@
        && c[12] != "Luke"@ && c[13] != "Luke"@ && c[14] != "Luke"@ && c[15] != "Luke"@
        && c[16] != "Luke"@ && c[17] != "Luke"@ && c[18] != "Luke"@ && c[19] != "Luke"@
        && c[20] != "Luke"@ && c[21] != "Luke"@ && c[22] != "Luke"@ && c[23] != "Luke"@
        && c[24] != "Luke"@ && c[25] != "Luke"@ && c[26] != "Luke"@ && c[27] != "Luke"@
        && c[28] != "Luke"@ && c[29] != "Luke"@ && c[30] != "Luke"@ && c[31] != "Luke"@
        && c[32] != "Luke"@ && c[33] != "Luke"@ && c[34] != "Luke"@ && c[35] != "Luke"@
        && c[36] != "Luke"@ && c[37] != "Luke"@ && c[38] != "Luke"@ && c[39] != "Luke"@
        && c[40] != "Luke"@
    );
    lemma_position_from(c, "Luke"@, 0, 41);
}

/// John is book 42.
proof fn key_of_john()
    ensures
        canonical_key("John"@) == 42,
{
    let c = canonical_books();
    reveal_strlit("Genesis");
    reveal_strlit("Exodus");
    reveal_strlit("Leviticus");
    reveal_strlit("Numbers");
    reveal_strlit("Deuteronomy");
    reveal_strlit("Joshua");
    reveal_strlit("Judges");
    reveal_strlit("Ruth");
    reveal_strlit("1 Samuel");
    reveal_strlit("2 Samuel");
    reveal_strlit("1 Kings");
    reveal_strlit("2 Kings");
    reveal_strlit("1 Chronicles");
    reveal_strlit("2 Chronicles");
    reveal_strlit("Ezra");
    reveal_strlit("Nehemiah");
    reveal_strlit("Esther");
    reveal_strlit("Job");
    reveal_strlit("Psalms");
    reveal_strlit("Proverbs");
    reveal_strlit("Ecclesiastes");
    reveal_strlit("Song of Solomon");
    reveal_strlit("Isaiah");
    reveal_strlit("Jeremiah");
    reveal_strlit("Lamentations");
    reveal_strlit("Ezekiel");
    reveal_strlit("Daniel");
    reveal_strlit("Hosea");
    reveal_strlit("Joel");
    reveal_strlit("Amos");
    reveal_strlit("Obadiah");
    reveal_strlit("Jonah");
    reveal_strlit("Micah");
    reveal_strlit("Nahum");
    reveal_strlit("Habakkuk");
    reveal_strlit("Zephaniah");
    reveal_strlit("Haggai");
    reveal_strlit("Zechariah");
    reveal_strlit("Malachi");
    reveal_strlit("Matthew");
    reveal_strlit("Mark");
    reveal_strlit("Luke");
    reveal_strlit("John");
    assert("Ruth"@[0] != "John"@[0]);
    assert("Ezra"@[0] != "John"@[0]);
    assert("Joel"@[2] != "John"@[2]);
    assert("Amos"@[0] != "John"@[0]);
    assert("Mark"@[0] != "John"@[0]);
    assert("Luke"@[0] != "John"@[0]);
    assert(c[42] == "John"@);
    assert(
        c[0] != "John"@ && c[1] != "John"@ && c[2] != "John"@ && c[3] != "John"@
        && c[4] != "John"@ && c[5] != "John"@ && c[6] != "John"@ && c[7] != "John"@
        && c[8] != "John"@ && c[9] != "John"@ && c[10] != "John"@ && c[11] != "John"@
        && c[12] != "John"@ && c[13] != "John"@ && c[14] != "John"@ && c[15] != "John"@
        && c[16] != "John"@ && c[17] != "John"@ && c[18] != "John"@ && c[19] != "John"@
        && c[20] != "John"@ && c[21] != "John"@ && c[22] != "John"@ && c[23] != "John"@
        && c[24] != "John"@ && c[25] != "John"@ && c[26] != "John"@ && c[27] != "John"@
        && c[28] != "John"@ && c[29] != "John"@ && c[30] != "John"@ && c[31] != "John"@
        && c[32] != "John"@ && c[33] != "John"@ && c[34] != "John"@ && c[35] != "John"@
        && c[36] != "John"@ && c[37] != "John"@ && c[38] != "John"@ && c[39] != "John"@
        && c[40] != "John"@ && c[41] != "John"@
    );
    lemma_position_from(c, "John"@, 0, 42);
}

/// Acts is book 43.
proof fn key_of_acts()
    ensures
        canonical_key("Acts"@) == 43,
{
    let c = canonical_books();
    reveal_strlit("Genesis");
    reveal_strlit("Exodus");
    reveal_strlit("Leviticus");
    reveal_strlit("Numbers");
    reveal_strlit("Deuteronomy");
    reveal_strlit("Joshua");
    reveal_strlit("Judges");
    reveal_strlit("Ruth");
    reveal_strlit("1 Samuel");
    reveal_strlit("2 Samuel");
    reveal_strlit("1 Kings");
    reveal_strlit("2 Kings");
    reveal_strlit("1 Chronicles");
    reveal_strlit("2 Chronicles");
    reveal_strlit("Ezra");
    reveal_strlit("Nehemiah");
    reveal_strlit("Esther");
    reveal_strlit("Job");
    reveal_strlit("Psalms");
    reveal_strlit("Proverbs");
    reveal_strlit("Ecclesiastes");
    reveal_strlit("Song of Solomon");
    reveal_strlit("Isaiah");
    reveal_strlit("Jeremiah");
    reveal_strlit("Lamentations");
    reveal_strlit("Ezekiel");
    reveal_strlit("Daniel");
    reveal_strlit("Hosea");
    reveal_strlit("Joel");
    reveal_strlit("Amos");
    reveal_strlit("Obadiah");
    reveal_strlit("Jonah");
    reveal_strlit("Micah");
    reveal_strlit("Nahum");
    reveal_strlit("Habakkuk");
    reveal_strlit("Zephaniah");
    reveal_strlit("Haggai");
    reveal_strlit("Zechariah");
    reveal_strlit("Malachi");
    reveal_strlit("Matthew");
    reveal_strlit("Mark");
    reveal_strlit("Luke");
    reveal_strlit("John");
    reveal_strlit("Acts");
    assert("Ruth"@[0] != "Acts"@[0]);
    assert("Ezra"@[0] != "Acts"@[0]);
    assert("Joel"@[0] != "Acts"@[0]);
    assert("Amos"@[1] != "Acts"@[1]);
    assert("Mark"@[0] != "Acts"@[0]);
    assert("Luke"@[0] != "Acts"@[0]);
    assert("John"@[0] != "Acts"@[0]);
    assert(c[43] == "Acts"@);
    assert(
        c[0] != "Acts"@ && c[1] != "Acts"@ && c[2] != "Acts"@ && c[3] != "Acts"@
        && c[4] != "Acts"@ && c[5] != "Acts"@ && c[6] != "Acts"@ && c[7] != "Acts"@
        && c[8] != "Acts"@ && c[9] != "Acts"@ && c[10] != "Acts"@ && c[11] != "Acts"@
        && c[12] != "Acts"@ && c[13] != "Acts"@ && c[14] != "Acts"@ && c[15] != "Acts"@
        && c[16] != "Acts"@ && c[17] != "Acts"@ && c[18] != "Acts"@ && c[19] != "Acts"@
        && c[20] != "Acts"@ && c[21] != "Acts"@ && c[22] != "Acts"@ && c[23] != "Acts"@
        && c[24] != "Acts"@ && c[25] != "Acts"@ && c[26] != "Acts"@ && c[27] != "Acts"@
        && c[28] != "Acts"@ && c[29] != "Acts"@ && c[30] != "Acts"@ && c[31] != "Acts"@
        && c[32] != "Acts"@ && c[33] != "Acts"@ && c[34] != "Acts"@ && c[35] != "Acts"@
        && c[36] != "Acts"@ && c[37] != "Acts"@ && c[38] != "Acts"@ && c[39] != "Acts"@
        && c[40] != "Acts"@ && c[41] != "Acts"@ && c[42] != "Acts"@
    );
    lemma_position_from(c, "Acts"@, 0, 43);
}

/// Romans is book 44.
proof fn key_of_romans()
    ensures
        canonical_key("Romans"@) == 44,
{
    let c = canonical_books();
    reveal_strlit("Genesis");
    reveal_strlit("Exodus");
    reveal_strlit("Leviticus");
    reveal_strlit("Numbers");
    reveal_strlit("Deuteronomy");
    reveal_strlit("Joshua");
    reveal_strlit("Judges");
    reveal_strlit("Ruth");
    reveal_strlit("1 Samuel");
    reveal_strlit("2 Samuel");
    reveal_strlit("1 Kings");
    reveal_strlit("2 Kings");
    reveal_strlit("1 Chronicles");
    reveal_strlit("2 Chronicles");
    reveal_strlit("Ezra");
    reveal_strlit("Nehemiah");
    reveal_strlit("Esther");
    reveal_strlit("Job");
    reveal_strlit("Psalms");
    reveal_strlit("Proverbs");
    reveal_strlit("Ecclesiastes");
    reveal_strlit("Song of Solomon");
    reveal_strlit("Isaiah");
    reveal_strlit("Jeremiah");
    reveal_strlit("Lamentations");
    reveal_strlit("Ezekiel");
    reveal_strlit("Daniel");
    reveal_strlit("Hosea");
    reveal_strlit("Joel");
    reveal_strlit("Amos");
    reveal_strlit("Obadiah");
    reveal_strlit("Jonah");
    reveal_strlit("Micah");
    reveal_strlit("Nahum");
    reveal_strlit("Habakkuk");
    reveal_strlit("Zephaniah");
    reveal_strlit("Haggai");
    reveal_strlit("Zechariah");
    reveal_strlit("Malachi");
    reveal_strlit("Matthew");
    reveal_strlit("Mark");
    reveal_strlit("Luke");
    reveal_strlit("John");
    reveal_strlit("Acts");
    reveal_strlit("Romans");
    assert("Exodus"@[0] != "Romans"@[0]);
    assert("Joshua"@[0] != "Romans"@[0]);
    assert("Judges"@[0] != "Romans"@[0]);
    assert("Esther"@[0] != "Romans"@[0]);
    assert("Psalms"@[0] != "Romans"@[0]);
    assert("Isaiah"@[0] != "Romans"@[0]);
    assert("Daniel"@[0] != "Romans"@[0]);
    assert("Haggai"@[0] != "Romans"@[0]);
    assert(c[44] == "Romans"@);
    assert(
        c[0] != "Romans"@ && c[1] != "Romans"@ && c[2] != "Romans"@ && c[3] != "Romans"@
        && c[4] != "Romans"@ && c[5] != "Romans"@ && c[6] != "Romans"@ && c[7] != "Romans"@
        && c[8] != "Romans"@ && c[9] != "Romans"@ && c[10] != "Romans"@ && c[11] != "Romans"@
        && c[12] != "Romans"@ && c[13] != "Romans"@ && c[14] != "Romans"@ && c[15] != "Romans"@
        && c[16] != "Romans"@ && c[17] != "Romans"@ && c[18] != "Romans"@ && c[19] != "Romans"@
        && c[20] != "Romans"@ && c[21] != "Romans"@ && c[22] != "Romans"@ && c[23] != "Romans"@
        && c[24] != "Romans"@ && c[25] != "Romans"@ && c[26] != "Romans"@ && c[27] != "Romans"@
        && c[28] != "Romans"@ && c[29] != "Romans"@ && c[30] != "Romans"@ && c[31] != "Romans"@
        && c[32] != "Romans"@ && c[33] != "Romans"@ && c[34] != "Romans"@ && c[35] != "Romans"@
        && c[36] != "Romans"@ && c[37] != "Romans"@ && c[38] != "Romans"@ && c[39] != "Romans"@
        && c[40] != "Romans"@ && c[41] != "Romans"@ && c[42] != "Romans"@ && c[43] != "Romans"@
    );
    lemma_position_from(c, "Romans"@, 0, 44);
}

/// 1 Corinthians is book 45.
proof fn key_of_1_corinthians()
    ensures
        canonical_key("1 Corinthians"@) == 45,
{
    let c = canonical_books();
    reveal_strlit("Genesis");
    reveal_strlit("Exodus");
    reveal_strlit("Leviticus");
    reveal_strlit("Numbers");
    reveal_strlit("Deuteronomy");
    reveal_strlit("Joshua");
    reveal_strlit("Judges");
    reveal_strlit("Ruth");
    reveal_strlit("1 Samuel");
    reveal_strlit("2 Samuel");
    reveal_strlit("1 Kings");
    reveal_strlit("2 Kings");
    reveal_strlit("1 Chronicles");
    reveal_strlit("2 Chronicles");
    reveal_strlit("Ezra");
    reveal_strlit("Nehemiah");
    reveal_strlit("Esther");
    reveal_strlit("Job");
    reveal_strlit("Psalms");
    reveal_strlit("Proverbs");
    reveal_strlit("Ecclesiastes");
    reveal_strlit("Song of Solomon");
    reveal_strlit("Isaiah");
    reveal_strlit("Jeremiah");
    reveal_strlit("Lamentations");
    reveal_strlit("Ezekiel");
    reveal_strlit("Daniel");
    reveal_strlit("Hosea");
    reveal_strlit("Joel");
    reveal_strlit("Amos");
    reveal_strlit("Obadiah");
    reveal_strlit("Jonah");
    reveal_strlit("Micah");
    reveal_strlit("Nahum");
    reveal_strlit("Habakkuk");
    reveal_strlit("Zephaniah");
    reveal_strlit("Haggai");
    reveal_strlit("Zechariah");
    reveal_strlit("Malachi");
    reveal_strlit("Matthew");
    reveal_strlit("Mark");
    reveal_strlit("Luke");
    reveal_strlit("John");
    reveal_strlit("Acts");
    reveal_strlit("Romans");
    reveal_strlit("1 Corinthians");
    assert(c[45] == "1 Corinthians"@);
    assert(
        c[0] != "1 Corinthians"@ && c[1] != "1 Corinthians"@ && c[2] != "1 Corinthians"@
        && c[3] != "1 Corinthians"@ && c[4] != "1 Corinthians"@ && c[5] != "1 Corinthians"@
        && c[6] != "1 Corinthians"@ && c[7] != "1 Corinthians"@ && c[8] != "1 Corinthians"@
        && c[9] != "1 Corinthians"@ && c[10] != "1 Corinthians"@ && c[11] != "1 Corinthians"@
        && c[12] != "1 Corinthians"@ && c[13] != "1 Corinthians"@ && c[14] != "1 Corinthians"@
        && c[15] != "1 Corinthians"@ && c[16] != "1 Corinthians"@ && c[17] != "1 Corinthians"@
        && c[18] != "1 Corinthians"@ && c[19] != "1 Corinthians"@ && c[20] != "1 Corinthians"@
        && c[21] != "1 Corinthians"@ && c[22] != "1 Corinthians"@ && c[23] != "1 Corinthians"@
        && c[24] != "1 Corinthians"@ && c[25] != "1 Corinthians"@ && c[26] != "1 Corinthians"@
        && c[27] != "1 Corinthians"@ && c[28] != "1 Corinthians"@ && c[29] != "1 Corinthians"@
        && c[30] != "1 Corinthians"@ && c[31] != "1 Corinthians"@ && c[32] != "1 Corinthians"@
        && c[33] != "1 Corinthians"@ && c[34] != "1 Corinthians"@ && c[35] != "1 Corinthians"@
        && c[36] != "1 Corinthians"@ && c[37] != "1 Corinthians"@ && c[38] != "1 Corinthians"@
        && c[39] != "1 Corinthians"@ && c[40] != "1 Corinthians"@ && c[41] != "1 Corinthians"@
        && c[42] != "1 Corinthians"@ && c[43] != "1 Corinthians"@ && c[44] != "1 Corinthians"@
    );
    lemma_position_from(c, "1 Corinthians"@, 0, 45);
}

/// 2 Corinthians is book 46.
proof fn key_of_2_corinthians()
    ensures
        canonical_key("2 Corinthians"@) == 46,
{
    let c = canonical_books();
    reveal_strlit("Genesis");
    reveal_strlit("Exodus");
    reveal_strlit("Leviticus");
    reveal_strlit("Numbers");
    reveal_strlit("Deuteronomy");
    reveal_strlit("Joshua");
    reveal_strlit("Judges");
    reveal_strlit("Ruth");
    reveal_strlit("1 Samuel");
    reveal_strlit("2 Samuel");
    reveal_strlit("1 Kings");
    reveal_strlit("2 Kings");
    reveal_strlit("1 Chronicles");
    reveal_strlit("2 Chronicles");
    reveal_strlit("Ezra");
    reveal_strlit("Nehemiah");
    reveal_strlit("Esther");
    reveal_strlit("Job");
    reveal_strlit("Psalms");
    reveal_strlit("Proverbs");
    reveal_strlit("Ecclesiastes");
    reveal_strlit("Song of Solomon");
    reveal_strlit("Isaiah");
    reveal_strlit("Jeremiah");
    reveal_strlit("Lamentations");
    reveal_strlit("Ezekiel");
    reveal_strlit("Daniel");
    reveal_strlit("Hosea");
    reveal_strlit("Joel");
    reveal_strlit("Amos");
    reveal_strlit("Obadiah");
    reveal_strlit("Jonah");
    reveal_strlit("Micah");
    reveal_strlit("Nahum");
    reveal_strlit("Habakkuk");
    reveal_strlit("Zephaniah");
    reveal_strlit("Haggai");
    reveal_strlit("Zechariah");
    reveal_strlit("Malachi");
    reveal_strlit("Matthew");
    reveal_strlit("Mark");
    reveal_strlit("Luke");
    reveal_strlit("John");
    reveal_strlit("Acts");
    reveal_strlit("Romans");
    reveal_strlit("1 Corinthians");
    reveal_strlit("2 Corinthians");
    assert("1 Corinthians"@[0] != "2 Corinthians"@[0]);
    assert(c[46] == "2 Corinthians"@);
    assert(
        c[0] != "2 Corinthians"@ && c[1] != "2 Corinthians"@ && c[2] != "2 Corinthians"@
        && c[3] != "2 Corinthians"@ && c[4] != "2 Corinthians"@ && c[5] != "2 Corinthians"@
        && c[6] != "2 Corinthians"@ && c[7] != "2 Corinthians"@ && c[8] != "2 Corinthians"@
        && c[9] != "2 Corinthians"@ && c[10] != "2 Corinthians"@ && c[11] != "2 Corinthians"@
        && c[12] != "2 Corinthians"@ && c[13] != "2 Corinthians"@ && c[14] != "2 Corinthians"@
        && c[15] != "2 Corinthians"@ && c[16] != "2 Corinthians"@ && c[17] != "2 Corinthians"@
        && c[18] != "2 Corinthians"@ && c[19] != "2 Corinthians"@ && c[20] != "2 Corinthians"@
        && c[21] != "2 Corinthians"@ && c[22] != "2 Corinthians"@ && c[23] != "2 Corinthians"@
        && c[24] != "2 Corinthians"@ && c[25] != "2 Corinthians"@ && c[26] != "2 Corinthians"@
        && c[27] != "2 Corinthians"@ && c[28] != "2 Corinthians"@ && c[29] != "2 Corinthians"@
        && c[30] != "2 Corinthians"@ && c[31] != "2 Corinthians"@ && c[32] != "2 Corinthians"@
        && c[33] != "2 Corinthians"@ && c[34] != "2 Corinthians"@ && c[35] != "2 Corinthians"@
        && c[36] != "2 Corinthians"@ && c[37] != "2 Corinthians"@ && c[38] != "2 Corinthians"@
        && c[39] != "2 Corinthians"@ && c[40] != "2 Corinthians"@ && c[41] != "2 Corinthians"@
        && c[42] != "2 Corinthians"@ && c[43] != "2 Corinthians"@ && c[44] != "2 Corinthians"@
        && c[45] != "2 Corinthians"@
    );
    lemma_position_from(c, "2 Corinthians"@, 0, 46);
}

/// Galatians is book 47.
proof fn key_of_galatians()
    ensures
        canonical_key("Galatians"@) == 47,
{
    let c = canonical_books();
    reveal_strlit("Genesis");
    reveal_strlit("Exodus");
    reveal_strlit("Leviticus");
    reveal_strlit("Numbers");
    reveal_strlit("Deuteronomy");
    reveal_strlit("Joshua");
    reveal_strlit("Judges");
    reveal_strlit("Ruth");
    reveal_strlit("1 Samuel");
    reveal_strlit("2 Samuel");
    reveal_strlit("1 Kings");
    reveal_strlit("2 Kings");
    reveal_strlit("1 Chronicles");
    reveal_strlit("2 Chronicles");
    reveal_strlit("Ezra");
    reveal_strlit("Nehemiah");
    reveal_strlit("Esther");
    reveal_strlit("Job");
    reveal_strlit("Psalms");
    reveal_strlit("Proverbs");
    reveal_strlit("Ecclesiastes");
    reveal_strlit("Song of Solomon");
    reveal_strlit("Isaiah");
    reveal_strlit("Jeremiah");
    reveal_strlit("Lamentations");
    reveal_strlit("Ezekiel");
    reveal_strlit("Daniel");
    reveal_strlit("Hosea");
    reveal_strlit("Joel");
    reveal_strlit("Amos");
    reveal_strlit("Obadiah");
    reveal_strlit("Jonah");
    reveal_strlit("Micah");
    reveal_strlit("Nahum");
    reveal_strlit("Habakkuk");
    reveal_strlit("Zephaniah");
    reveal_strlit("Haggai");
    reveal_strlit("Zechariah");
    reveal_strlit("Malachi");
    reveal_strlit("Matthew");
    reveal_strlit("Mark");
    reveal_strlit("Luke");
    reveal_strlit("John");
    reveal_strlit("Acts");
    reveal_strlit("Romans");
    reveal_strlit("1 Corinthians");
    reveal_strlit("2 Corinthians");
    reveal_strlit("Galatians");
    assert("Leviticus"@[0] != "Galatians"@[0]);
    assert("Zephaniah"@[0] != "Galatians"@[0]);
    assert("Zechariah"@[0] != "Galatians"@[0]);
    assert(c[47] == "Galatians"@);
    assert(
        c[0] != "Galatians"@ && c[1] != "Galatians"@ && c[2] != "Galatians"@
        && c[3] != "Galatians"@ && c[4] != "Galatians"@ && c[5] != "Galatians"@
        && c[6] != "Galatians"@ && c[7] != "Galatians"@ && c[8] != "Galatians"@
        && c[9] != "Galatians"@ && c[10] != "Galatians"@ && c[11] != "Galatians"@
        && c[12] != "Galatians"@ && c[13] != "Galatians"@ && c[14] != "Galatians"@
        && c[15] != "Galatians"@ && c[16] != "Galatians"@ && c[17] != "Galatians"@
        && c[18] != "Galatians"@ && c[19] != "Galatians"@ && c[20] != "Galatians"@
        && c[21] != "Galatians"@ && c[22] != "Galatians"@ && c[23] != "Galatians"@
        && c[24] != "Galatians"@ && c[25] != "Galatians"@ && c[26] != "Galatians"@
        && c[27] != "Galatians"@ && c[28] != "Galatians"@ && c[29] != "Galatians"@
        && c[30] != "Galatians"@ && c[31] != "Galatians"@ && c[32] != "Galatians"@
        && c[33] != "Galatians"@ && c[34] != "Galatians"@ && c[35] != "Galatians"@
        && c[36] != "Galatians"@ && c[37] != "Galatians"@ && c[38] != "Galatians"@
        && c[39] != "Galatians"@ && c[40] != "Galatians"@ && c[41] != "Galatians"@
        && c[42] != "Galatians"@ && c[43] != "Galatians"@ && c[44] != "Galatians"@
        && c[45] != "Galatians"@ && c[46] != "Galatians"@
    );
    lemma_position_from(c, "Galatians"@, 0, 47);
}

/// Ephesians is book 48.
proof fn key_of_ephesians()
    ensures
        canonical_key("Ephesians"@) == 48,
{
    let c = canonical_books();
    reveal_strlit("Genesis");
    reveal_strlit("Exodus");
    reveal_strlit("Leviticus");
    reveal_strlit("Numbers");
    reveal_strlit("Deuteronomy");
    reveal_strlit("Joshua");
    reveal_strlit("Judges");
    reveal_strlit("Ruth");
    reveal_strlit("1 Samuel");
    reveal_strlit("2 Samuel");
    reveal_strlit("1 Kings");
    reveal_strlit("2 Kings");
    reveal_strlit("1 Chronicles");
    reveal_strlit("2 Chronicles");
    reveal_strlit("Ezra");
    reveal_strlit("Nehemiah");
    reveal_strlit("Esther");
    reveal_strlit("Job");
    reveal_strlit("Psalms");
    reveal_strlit("Proverbs");
    reveal_strlit("Ecclesiastes");
    reveal_strlit("Song of Solomon");
    reveal_strlit("Isaiah");
    reveal_strlit("Jeremiah");
    reveal_strlit("Lamentations");
    reveal_strlit("Ezekiel");
    reveal_strlit("Daniel");
    reveal_strlit("Hosea");
    reveal_strlit("Joel");
    reveal_strlit("Amos");
    reveal_strlit("Obadiah");
    reveal_strlit("Jonah");
    reveal_strlit("Micah");
    reveal_strlit("Nahum");
    reveal_strlit("Habakkuk");
    reveal_strlit("Zephaniah");
    reveal_strlit("Haggai");
    reveal_strlit("Zechariah");
    reveal_strlit("Malachi");
    reveal_strlit("Matthew");
    reveal_strlit("Mark");
    reveal_strlit("Luke");
    reveal_strlit("John");
    reveal_strlit("Acts");
    reveal_strlit("Romans");
    reveal_strlit("1 Corinthians");
    reveal_strlit("2 Corinthians");
    reveal_strlit("Galatians");
    reveal_strlit("Ephesians");
    assert("Leviticus"@[0] != "Ephesians"@[0]);
    assert("Zephaniah"@[0] != "Ephesians"@[0]);
    assert("Zechariah"@[0] != "Ephesians"@[0]);
    assert("Galatians"@[0] != "Ephesians"@[0]);
    assert(c[48] == "Ephesians"@);
    assert(
        c[0] != "Ephesians"@ && c[1] != "Ephesians"@ && c[2] != "Ephesians"@
        && c[3] != "Ephesians"@ && c[4] != "Ephesians"@ && c[5] != "Ephesians"@
        && c[6] != "Ephesians"@ && c[7] != "Ephesians"@ && c[8] != "Ephesians"@
        && c[9] != "Ephesians"@ && c[10] != "Ephesians"@ && c[11] != "Ephesians"@
        && c[12] != "Ephesians"@ && c[13] != "Ephesians"@ && c[14] != "Ephesians"@
        && c[15] != "Ephesians"@ && c[16] != "Ephesians"@ && c[17] != "Ephesians"@
        && c[18] != "Ephesians"@ && c[19] != "Ephesians"@ && c[20] != "Ephesians"@
        && c[21] != "Ephesians"@ && c[22] != "Ephesians"@ && c[23] != "Ephesians"@
        && c[24] != "Ephesians"@ && c[25] != "Ephesians"@ && c[26] != "Ephesians"@
        && c[27] != "Ephesians"@ && c[28] != "Ephesians"@ && c[29] != "Ephesians"@
        && c[30] != "Ephesians"@ && c[31] != "Ephesians"@ && c[32] != "Ephesians"@
        && c[33] != "Ephesians"@ && c[34] != "Ephesians"@ && c[35] != "Ephesians"@
        && c[36] != "Ephesians"@ && c[37] != "Ephesians"@ && c[38] != "Ephesians"@
        && c[39] != "Ephesians"@ && c[40] != "Ephesians"@ && c[41] != "Ephesians"@
        && c[42] != "Ephesians"@ && c[43] != "Ephesians"@ && c[44] != "Ephesians"@
        && c[45] != "Ephesians"@ && c[46] != "Ephesians"@ && c[47] != "Ephesians"@
    );
    lemma_position_from(c, "Ephesians"@, 0, 48);
}

/// Philippians is book 49.
proof fn key_of_philippians()
    ensures
        canonical_key("Philippians"@) == 49,
{
    let c = canonical_books();
    reveal_strlit("Genesis");
    reveal_strlit("Exodus");
    reveal_strlit("Leviticus");
    reveal_strlit("Numbers");
    reveal_strlit("Deuteronomy");
    reveal_strlit("Joshua");
    reveal_strlit("Judges");
    reveal_strlit("Ruth");
    reveal_strlit("1 Samuel");
    reveal_strlit("2 Samuel");
    reveal_strlit("1 Kings");
    reveal_strlit("2 Kings");
    reveal_strlit("1 Chronicles");
    reveal_strlit("2 Chronicles");
    reveal_strlit("Ezra");
    reveal_strlit("Nehemiah");
    reveal_strlit("Esther");
    reveal_strlit("Job");
    reveal_strlit("Psalms");
    reveal_strlit("Proverbs");
    reveal_strlit("Ecclesiastes");
    reveal_strlit("Song of Solomon");
    reveal_strlit("Isaiah");
    reveal_strlit("Jeremiah");
    reveal_strlit("Lamentations");
    reveal_strlit("Ezekiel");
    reveal_strlit("Daniel");
    reveal_strlit("Hosea");
    reveal_strlit("Joel");
    reveal_strlit("Amos");
    reveal_strlit("Obadiah");
    reveal_strlit("Jonah");
    reveal_strlit("Micah");
    reveal_strlit("Nahum");
    reveal_strlit("Habakkuk");
    reveal_strlit("Zephaniah");
    reveal_strlit("Haggai");
    reveal_strlit("Zechariah");
    reveal_strlit("Malachi");
    reveal_strlit("Matthew");
    reveal_strlit("Mark");
    reveal_strlit("Luke");
    reveal_strlit("John");
    reveal_strlit("Acts");
    reveal_strlit("Romans");
    reveal_strlit("1 Corinthians");
    reveal_strlit("2 Corinthians");
    reveal_strlit("Galatians");
    reveal_strlit("Ephesians");
    reveal_strlit("Philippians");
    assert("Deuteronomy"@[0] != "Philippians"@[0]);
    assert(c[49] == "Philippians"@);
    assert(
        c[0] != "Philippians"@ && c[1] != "Philippians"@ && c[2] != "Philippians"@
        && c[3] != "Philippians"@ && c[4] != "Philippians"@ && c[5] != "Philippians"@
        && c[6] != "Philippians"@ && c[7] != "Philippians"@ && c[8] != "Philippians"@
        && c[9] != "Philippians"@ && c[10] != "Philippians"@ && c[11] != "Philippians"@
        && c[12] != "Philippians"@ && c[13] != "Philippians"@ && c[14] != "Philippians"@
        && c[15] != "Philippians"@ && c[16] != "Philippians"@ && c[17] != "Philippians"@
        && c[18] != "Philippians"@ && c[19] != "Philippians"@ && c[20] != "Philippians"@
        && c[21] != "Philippians"@ && c[22] != "Philippians"@ && c[23] != "Philippians"@
        && c[24] != "Philippians"@ && c[25] != "Philippians"@ && c[26] != "Philippians"@
        && c[27] != "Philippians"@ && c[28] != "Philippians"@ && c[29] != "Philippians"@
        && c[30] != "Philippians"@ && c[31] != "Philippians"@ && c[32] != "Philippians"@
        && c[33] != "Philippians"@ && c[34] != "Philippians"@ && c[35] != "Philippians"@
        && c[36] != "Philippians"@ && c[37] != "Philippians"@ && c[38] != "Philippians"@
        && c[39] != "Philippians"@ && c[40] != "Philippians"@ && c[41] != "Philippians"@
        && c[42] != "Philippians"@ && c[43] != "Philippians"@ && c[44] != "Philippians"@
        && c[45] != "Philippians"@ && c[46] != "Philippians"@ && c[47] != "Philippians"@
        && c[48] != "Philippians"@
    );
    lemma_position_from(c, "Philippians"@, 0, 49);
}

/// Colossians is book 50.
proof fn key_of_colossians()
    ensures
        canonical_key("Colossians"@) == 50,
{
    let c = canonical_books();
    reveal_strlit("Genesis");
    reveal_strlit("Exodus");
    reveal_strlit("Leviticus");
    reveal_strlit("Numbers");
    reveal_strlit("Deuteronomy");
    reveal_strlit("Joshua");
    reveal_strlit("Judges");
    reveal_strlit("Ruth");
    reveal_strlit("1 Samuel");
    reveal_strlit("2 Samuel");
    reveal_strlit("1 Kings");
    reveal_strlit("2 Kings");
    reveal_strlit("1 Chronicles");
    reveal_strlit("2 Chronicles");
    reveal_strlit("Ezra");
    reveal_strlit("Nehemiah");
    reveal_strlit("Esther");
    reveal_strlit("Job");
    reveal_strlit("Psalms");
    reveal_strlit("Proverbs");
    reveal_strlit("Ecclesiastes");
    reveal_strlit("Song of Solomon");
    reveal_strlit("Isaiah");
    reveal_strlit("Jeremiah");
    reveal_strlit("Lamentations");
    reveal_strlit("Ezekiel");
    reveal_strlit("Daniel");
    reveal_strlit("Hosea");
    reveal_strlit("Joel");
    reveal_strlit("Amos");
    reveal_strlit("Obadiah");
    reveal_strlit("Jonah");
    reveal_strlit("Micah");
    reveal_strlit("Nahum");
    reveal_strlit("Habakkuk");
    reveal_strlit("Zephaniah");
    reveal_strlit("Haggai");
    reveal_strlit("Zechariah");
    reveal_strlit("Malachi");
    reveal_strlit("Matthew");
    reveal_strlit("Mark");
    reveal_strlit("Luke");
    reveal_strlit("John");
    reveal_strlit("Acts");
    reveal_strlit("Romans");
    reveal_strlit("1 Corinthians");
    reveal_strlit("2 Corinthians");
    reveal_strlit("Galatians");
    reveal_strlit("Ephesians");
    reveal_strlit("Philippians");
    reveal_strlit("Colossians");
    assert(c[50] == "Colossians"@);
    assert(
        c[0] != "Colossians"@ && c[1] != "Colossians"@ && c[2] != "Colossians"@
        && c[3] != "Colossians"@ && c[4] != "Colossians"@ && c[5] != "Colossians"@
        && c[6] != "Colossians"@ && c[7] != "Colossians"@ && c[8] != "Colossians"@
        && c[9] != "Colossians"@ && c[10] != "Colossians"@ && c[11] != "Colossians"@
        && c[12] != "Colossians"@ && c[13] != "Colossians"@ && c[14] != "Colossians"@
        && c[15] != "Colossians"@ && c[16] != "Colossians"@ && c[17] != "Colossians"@
        && c[18] != "Colossians"@ && c[19] != "Colossians"@ && c[20] != "Colossians"@
        && c[21] != "Colossians"@ && c[22] != "Colossians"@ && c[23] != "Colossians"@
        && c[24] != "Colossians"@ && c[25] != "Colossians"@ && c[26] != "Colossians"@
        && c[27] != "Colossians"@ && c[28] != "Colossians"@ && c[29] != "Colossians"@
        && c[30] != "Colossians"@ && c[31] != "Colossians"@ && c[32] != "Colossians"@
        && c[33] != "Colossians"@ && c[34] != "Colossians"@ && c[35] != "Colossians"@
        && c[36] != "Colossians"@ && c[37] != "Colossians"@ && c[38] != "Colossians"@
        && c[39] != "Colossians"@ && c[40] != "Colossians"@ && c[41] != "Colossians"@
        && c[42] != "Colossians"@ && c[43] != "Colossians"@ && c[44] != "Colossians"@
        && c[45] != "Colossians"@ && c[46] != "Colossians"@ && c[47] != "Colossians"@
        && c[48] != "Colossians"@ && c[49] != "Colossians"@
    );
    lemma_position_from(c, "Colossians"@, 0, 50);
}

/// 1 Thessalonians is book 51.
proof fn key_of_1_thessalonians()
    ensures
        canonical_key("1 Thessalonians"@) == 51,
{
    let c = canonical_books();
    reveal_strlit("Genesis");
    reveal_strlit("Exodus");
    reveal_strlit("Leviticus");
    reveal_strlit("Numbers");
    reveal_strlit("Deuteronomy");
    reveal_strlit("Joshua");
    reveal_strlit("Judges");
    reveal_strlit("Ruth");
    reveal_strlit("1 Samuel");
    reveal_strlit("2 Samuel");
    reveal_strlit("1 Kings");
    reveal_strlit("2 Kings");
    reveal_strlit("1 Chronicles");
    reveal_strlit("2 Chronicles");
    reveal_strlit("Ezra");
    reveal_strlit("Nehemiah");
    reveal_strlit("Esther");
    reveal_strlit("Job");
    reveal_strlit("Psalms");
    reveal_strlit("Proverbs");
    reveal_strlit("Ecclesiastes");
    reveal_strlit("Song of Solomon");
    reveal_strlit("Isaiah");
    reveal_strlit("Jeremiah");
    reveal_strlit("Lamentations");
    reveal_strlit("Ezekiel");
    reveal_strlit("Daniel");
    reveal_strlit("Hosea");
    reveal_strlit("Joel");
    reveal_strlit("Amos");
    reveal_strlit("Obadiah");
    reveal_strlit("Jonah");
    reveal_strlit("Micah");
    reveal_strlit("Nahum");
    reveal_strlit("Habakkuk");
    reveal_strlit("Zephaniah");
    reveal_strlit("Haggai");
    reveal_strlit("Zechariah");
    reveal_strlit("Malachi");
    reveal_strlit("Matthew");
    reveal_strlit("Mark");
    reveal_strlit("Luke");
    reveal_strlit("John");
    reveal_strlit("Acts");
    reveal_strlit("Romans");
    reveal_strlit("1 Corinthians");
    reveal_strlit("2 Corinthians");
    reveal_strlit("Galatians");
    reveal_strlit("Ephesians");
    reveal_strlit("Philippians");
    reveal_strlit("Colossians");
    reveal_strlit("1 Thessalonians");
    assert("Song of Solomon"@[0] != "1 Thessalonians"@[0]);
    assert(c[51] == "1 Thessalonians"@);
    assert(
        c[0] != "1 Thessalonians"@ && c[1] != "1 Thessalonians"@ && c[2] != "1 Thessalonians"@
        && c[3] != "1 Thessalonians"@ && c[4] != "1 Thessalonians"@ && c[5] != "1 Thessalonians"@
        && c[6] != "1 Thessalonians"@ && c[7] != "1 Thessalonians"@ && c[8] != "1 Thessalonians"@
        && c[9] != "1 Thessalonians"@ && c[10] != "1 Thessalonians"@ && c[11] != "1 Thessalonians"@
        && c[12] != "1 Thessalonians"@ && c[13] != "1 Thessalonians"@
        && c[14] != "1 Thessalonians"@ && c[15] != "1 Thessalonians"@
        && c[16] != "1 Thessalonians"@ && c[17] != "1 Thessalonians"@
        && c[18] != "1 Thessalonians"@ && c[19] != "1 Thessalonians"@
        && c[20] != "1 Thessalonians"@ && c[21] != "1 Thessalonians"@
        && c[22] != "1 Thessalonians"@ && c[23] != "1 Thessalonians"@
        && c[24] != "1 Thessalonians"@ && c[25] != "1 Thessalonians"@
        && c[26] != "1 Thessalonians"@ && c[27] != "1 Thessalonians"@
        && c[28] != "1 Thessalonians"@ && c[29] != "1 Thessalonians"@
        && c[30] != "1 Thessalonians"@ && c[31] != "1 Thessalonians"@
        && c[32] != "1 Thessalonians"@ && c[33] != "1 Thessalonians"@
        && c[34] != "1 Thessalonians"@ && c[35] != "1 Thessalonians"@
        && c[36] != "1 Thessalonians"@ && c[37] != "1 Thessalonians"@
        && c[38] != "1 Thessalonians"@ && c[39] != "1 Thessalonians"@
        && c[40] != "1 Thessalonians"@ && c[41] != "1 Thessalonians"@
        && c[42] != "1 Thessalonians"@ && c[43] != "1 Thessalonians"@
        && c[44] != "1 Thessalonians"@ && c[45] != "1 Thessalonians"@
        && c[46] != "1 Thessalonians"@ && c[47] != "1 Thessalonians"@
        && c[48] != "1 Thessalonians"@ && c[49] != "1 Thessalonians"@
        && c[50] != "1 Thessalonians"@
    );
    lemma_position_from(c, "1 Thessalonians"@, 0, 51);
}

/// 2 Thessalonians is book 52.
proof fn key_of_2_thessalonians()
    ensures
        canonical_key("2 Thessalonians"@) == 52,
{
    let c = canonical_books();
    reveal_strlit("Genesis");
    reveal_strlit("Exodus");
    reveal_strlit("Leviticus");
    reveal_strlit("Numbers");
    reveal_strlit("Deuteronomy");
    reveal_strlit("Joshua");
    reveal_strlit("Judges");
    reveal_strlit("Ruth");
    reveal_strlit("1 Samuel");
    reveal_strlit("2 Samuel");
    reveal_strlit("1 Kings");
    reveal_strlit("2 Kings");
    reveal_strlit("1 Chronicles");
    reveal_strlit("2 Chronicles");
    reveal_strlit("Ezra");
    reveal_strlit("Nehemiah");
    reveal_strlit("Esther");
    reveal_strlit("Job");
    reveal_strlit("Psalms");
    reveal_strlit("Proverbs");
    reveal_strlit("Ecclesiastes");
    reveal_strlit("Song of Solomon");
    reveal_strlit("Isaiah");
    reveal_strlit("Jeremiah");
    reveal_strlit("Lamentations");
    reveal_strlit("Ezekiel");
    reveal_strlit("Daniel");
    reveal_strlit("Hosea");
    reveal_strlit("Joel");
    reveal_strlit("Amos");
    reveal_strlit("Obadiah");
    reveal_strlit("Jonah");
    reveal_strlit("Micah");
    reveal_strlit("Nahum");
    reveal_strlit("Habakkuk");
    reveal_strlit("Zephaniah");
    reveal_strlit("Haggai");
    reveal_strlit("Zechariah");
    reveal_strlit("Malachi");
    reveal_strlit("Matthew");
    reveal_strlit("Mark");
    reveal_strlit("Luke");
    reveal_strlit("John");
    reveal_strlit("Acts");
    reveal_strlit("Romans");
    reveal_strlit("1 Corinthians");
    reveal_strlit("2 Corinthians");
    reveal_strlit("Galatians");
    reveal_strlit("Ephesians");
    reveal_strlit("Philippians");
    reveal_strlit("Colossians");
    reveal_strlit("1 Thessalonians");
    reveal_strlit("2 Thessalonians");
    assert("Song of Solomon"@[0] != "2 Thessalonians"@[0]);
    assert("1 Thessalonians"@[0] != "2 Thessalonians"@[0]);
    assert(c[52] == "2 Thessalonians"@);
    assert(
        c[0] != "2 Thessalonians"@ && c[1] != "2 Thessalonians"@ && c[2] != "2 Thessalonians"@
        && c[3] != "2 Thessalonians"@ && c[4] != "2 Thessalonians"@ && c[5] != "2 Thessalonians"@
        && c[6] != "2 Thessalonians"@ && c[7] != "2 Thessalonians"@ && c[8] != "2 Thessalonians"@
        && c[9] != "2 Thessalonians"@ && c[10] != "2 Thessalonians"@ && c[11] != "2 Thessalonians"@
        && c[12] != "2 Thessalonians"@ && c[13] != "2 Thessalonians"@
        && c[14] != "2 Thessalonians"@ && c[15] != "2 Thessalonians"@
        && c[16] != "2 Thessalonians"@ && c[17] != "2 Thessalonians"@
        && c[18] != "2 Thessalonians"@ && c[19] != "2 Thessalonians"@
        && c[20] != "2 Thessalonians"@ && c[21] != "2 Thessalonians"@
        && c[22] != "2 Thessalonians"@ && c[23] != "2 Thessalonians"@
        && c[24] != "2 Thessalonians"@ && c[25] != "2 Thessalonians"@
        && c[26] != "2 Thessalonians"@ && c[27] != "2 Thessalonians"@
        && c[28] != "2 Thessalonians"@ && c[29] != "2 Thessalonians"@
        && c[30] != "2 Thessalonians"@ && c[31] != "2 Thessalonians"@
        && c[32] != "2 Thessalonians"@ && c[33] != "2 Thessalonians"@
        && c[34] != "2 Thessalonians"@ && c[35] != "2 Thessalonians"@
        && c[36] != "2 Thessalonians"@ && c[37] != "2 Thessalonians"@
        && c[38] != "2 Thessalonians"@ && c[39] != "2 Thessalonians"@
        && c[40] != "2 Thessalonians"@ && c[41] != "2 Thessalonians"@
        && c[42] != "2 Thessalonians"@ && c[43] != "2 Thessalonians"@
        && c[44] != "2 Thessalonians"@ && c[45] != "2 Thessalonians"@
        && c[46] != "2 Thessalonians"@ && c[47] != "2 Thessalonians"@
        && c[48] != "2 Thessalonians"@ && c[49] != "2 Thessalonians"@
        && c[50] != "2 Thessalonians"@ && c[51] != "2 Thessalonians"@
    );
    lemma_position_from(c, "2 Thessalonians"@, 0, 52);
}

/// 1 Timothy is book 53.
proof fn key_of_1_timothy()
    ensures
        canonical_key("1 Timothy"@) == 53,
{
    let c = canonical_books();
    reveal_strlit("Genesis");
    reveal_strlit("Exodus");
    reveal_strlit("Leviticus");
    reveal_strlit("Numbers");
    reveal_strlit("Deuteronomy");
    reveal_strlit("Joshua");
    reveal_strlit("Judges");
    reveal_strlit("Ruth");
    reveal_strlit("1 Samuel");
    reveal_strlit("2 Samuel");
    reveal_strlit("1 Kings");
    reveal_strlit("2 Kings");
    reveal_strlit("1 Chronicles");
    reveal_strlit("2 Chronicles");
    reveal_strlit("Ezra");
    reveal_strlit("Nehemiah");
    reveal_strlit("Esther");
    reveal_strlit("Job");
    reveal_strlit("Psalms");
    reveal_strlit("Proverbs");
    reveal_strlit("Ecclesiastes");
    reveal_strlit("Song of Solomon");
    reveal_strlit("Isaiah");
    reveal_strlit("Jeremiah");
    reveal_strlit("Lamentations");
    reveal_strlit("Ezekiel");
    reveal_strlit("Daniel");
    reveal_strlit("Hosea");
    reveal_strlit("Joel");
    reveal_strlit("Amos");
    reveal_strlit("Obadiah");
    reveal_strlit("Jonah");
    reveal_strlit("Micah");
    reveal_strlit("Nahum");
    reveal_strlit("Habakkuk");
    reveal_strlit("Zephaniah");
    reveal_strlit("Haggai");
    reveal_strlit("Zechariah");
    reveal_strlit("Malachi");
    reveal_strlit("Matthew");
    reveal_strlit("Mark");
    reveal_strlit("Luke");
    reveal_strlit("John");
    reveal_strlit("Acts");
    reveal_strlit("Romans");
    reveal_strlit("1 Corinthians");
    reveal_strlit("2 Corinthians");
    reveal_strlit("Galatians");
    reveal_strlit("Ephesians");
    reveal_strlit("Philippians");
    reveal_strlit("Colossians");
    reveal_strlit("1 Thessalonians");
    reveal_strlit("2 Thessalonians");
    reveal_strlit("1 Timothy");
    assert("Leviticus"@[0] != "1 Timothy"@[0]);
    assert("Zephaniah"@[0] != "1 Timothy"@[0]);
    assert("Zechariah"@[0] != "1 Timothy"@[0]);
    assert("Galatians"@[0] != "1 Timothy"@[0]);
    assert("Ephesians"@[0] != "1 Timothy"@[0]);
    assert(c[53] == "1 Timothy"@);
    assert(
        c[0] != "1 Timothy"@ && c[1] != "1 Timothy"@ && c[2] != "1 Timothy"@
        && c[3] != "1 Timothy"@ && c[4] != "1 Timothy"@ && c[5] != "1 Timothy"@
        && c[6] != "1 Timothy"@ && c[7] != "1 Timothy"@ && c[8] != "1 Timothy"@
        && c[9] != "1 Timothy"@ && c[10] != "1 Timothy"@ && c[11] != "1 Timothy"@
        && c[12] != "1 Timothy"@ && c[13] != "1 Timothy"@ && c[14] != "1 Timothy"@
        && c[15] != "1 Timothy"@ && c[16] != "1 Timothy"@ && c[17] != "1 Timothy"@
        && c[18] != "1 Timothy"@ && c[19] != "1 Timothy"@ && c[20] != "1 Timothy"@
        && c[21] != "1 Timothy"@ && c[22] != "1 Timothy"@ && c[23] != "1 Timothy"@
        && c[24] != "1 Timothy"@ && c[25] != "1 Timothy"@ && c[26] != "1 Timothy"@
        && c[27] != "1 Timothy"@ && c[28] != "1 Timothy"@ && c[29] != "1 Timothy"@
        && c[30] != "1 Timothy"@ && c[31] != "1 Timothy"@ && c[32] != "1 Timothy"@
        && c[33] != "1 Timothy"@ && c[34] != "1 Timothy"@ && c[35] != "1 Timothy"@
        && c[36] != "1 Timothy"@ && c[37] != "1 Timothy"@ && c[38] != "1 Timothy"@
        && c[39] != "1 Timothy"@ && c[40] != "1 Timothy"@ && c[41] != "1 Timothy"@
        && c[42] != "1 Timothy"@ && c[43] != "1 Timothy"@ && c[44] != "1 Timothy"@
        && c[45] != "1 Timothy"@ && c[46] != "1 Timothy"@ && c[47] != "1 Timothy"@
        && c[48] != "1 Timothy"@ && c[49] != "1 Timothy"@ && c[50] != "1 Timothy"@
        && c[51] != "1 Timothy"@ && c[52] != "1 Timothy"@
    );
    lemma_position_from(c, "1 Timothy"@, 0, 53);
}

/// 2 Timothy is book 54.
proof fn key_of_2_timothy()
    ensures
        canonical_key("2 Timothy"@) == 54,
{
    let c = canonical_books();
    reveal_strlit("Genesis");
    reveal_strlit("Exodus");
    reveal_strlit("Leviticus");
    reveal_strlit("Numbers");
    reveal_strlit("Deuteronomy");
    reveal_strlit("Joshua");
    reveal_strlit("Judges");
    reveal_strlit("Ruth");
    reveal_strlit("1 Samuel");
    reveal_strlit("2 Samuel");
    reveal_strlit("1 Kings");
    reveal_strlit("2 Kings");
    reveal_strlit("1 Chronicles");
    reveal_strlit("2 Chronicles");
    reveal_strlit("Ezra");
    reveal_strlit("Nehemiah");
    reveal_strlit("Esther");
    reveal_strlit("Job");
    reveal_strlit("Psalms");
    reveal_strlit("Proverbs");
    reveal_strlit("Ecclesiastes");
    reveal_strlit("Song of Solomon");
    reveal_strlit("Isaiah");
    reveal_strlit("Jeremiah");
    reveal_strlit("Lamentations");
    reveal_strlit("Ezekiel");
    reveal_strlit("Daniel");
    reveal_strlit("Hosea");
    reveal_strlit("Joel");
    reveal_strlit("Amos");
    reveal_strlit("Obadiah");
    reveal_strlit("Jonah");
    reveal_strlit("Micah");
    reveal_strlit("Nahum");
    reveal_strlit("Habakkuk");
    reveal_strlit("Zephaniah");
    reveal_strlit("Haggai");
    reveal_strlit("Zechariah");
    reveal_strlit("Malachi");
    reveal_strlit("Matthew");
    reveal_strlit("Mark");
    reveal_strlit("Luke");
    reveal_strlit("John");
    reveal_strlit("Acts");
    reveal_strlit("Romans");
    reveal_strlit("1 Corinthians");
    reveal_strlit("2 Corinthians");
    reveal_strlit("Galatians");
    reveal_strlit("Ephesians");
    reveal_strlit("Philippians");
    reveal_strlit("Colossians");
    reveal_strlit("1 Thessalonians");
    reveal_strlit("2 Thessalonians");
    reveal_strlit("1 Timothy");
    reveal_strlit("2 Timothy");
    assert("Leviticus"@[0] != "2 Timothy"@[0]);
    assert("Zephaniah"@[0] != "2 Timothy"@[0]);
    assert("Zechariah"@[0] != "2 Timothy"@[0]);
    assert("Galatians"@[0] != "2 Timothy"@[0]);
    assert("Ephesians"@[0] != "2 Timothy"@[0]);
    assert("1 Timothy"@[0] != "2 Timothy"@[0]);
    assert(c[54] == "2 Timothy"@);
    assert(
        c[0] != "2 Timothy"@ && c[1] != "2 Timothy"@ && c[2] != "2 Timothy"@
        && c[3] != "2 Timothy"@ && c[4] != "2 Timothy"@ && c[5] != "2 Timothy"@
        && c[6] != "2 Timothy"@ && c[7] != "2 Timothy"@ && c[8] != "2 Timothy"@
        && c[9] != "2 Timothy"@ && c[10] != "2 Timothy"@ && c[11] != "2 Timothy"@
        && c[12] != "2 Timothy"@ && c[13] != "2 Timothy"@ && c[14] != "2 Timothy"@
        && c[15] != "2 Timothy"@ && c[16] != "2 Timothy"@ && c[17] != "2 Timothy"@
        && c[18] != "2 Timothy"@ && c[19] != "2 Timothy"@ && c[20] != "2 Timothy"@
        && c[21] != "2 Timothy"@ && c[22] != "2 Timothy"@ && c[23] != "2 Timothy"@
        && c[24] != "2 Timothy"@ && c[25] != "2 Timothy"@ && c[26] != "2 Timothy"@
        && c[27] != "2 Timothy"@ && c[28] != "2 Timothy"@ && c[29] != "2 Timothy"@
        && c[30] != "2 Timothy"@ && c[31] != "2 Timothy"@ && c[32] != "2 Timothy"@
        && c[33] != "2 Timothy"@ && c[34] != "2 Timothy"@ && c[35] != "2 Timothy"@
        && c[36] != "2 Timothy"@ && c[37] != "2 Timothy"@ && c[38] != "2 Timothy"@
        && c[39] != "2 Timothy"@ && c[40] != "2 Timothy"@ && c[41] != "2 Timothy"@
        && c[42] != "2 Timothy"@ && c[43] != "2 Timothy"@ && c[44] != "2 Timothy"@
        && c[45] != "2 Timothy"@ && c[46] != "2 Timothy"@ && c[47] != "2 Timothy"@
        && c[48] != "2 Timothy"@ && c[49] != "2 Timothy"@ && c[50] != "2 Timothy"@
        && c[51] != "2 Timothy"@ && c[52] != "2 Timothy"@ && c[53] != "2 Timothy"@
    );
    lemma_position_from(c, "2 Timothy"@, 0, 54);
}

/// Titus is book 55.
proof fn key_of_titus()
    ensures
        canonical_key("Titus"@) == 55,
{
    let c = canonical_books();
    reveal_strlit("Genesis");
    reveal_strlit("Exodus");
    reveal_strlit("Leviticus");
    reveal_strlit("Numbers");
    reveal_strlit("Deuteronomy");
    reveal_strlit("Joshua");
    reveal_strlit("Judges");
    reveal_strlit("Ruth");
    reveal_strlit("1 Samuel");
    reveal_strlit("2 Samuel");
    reveal_strlit("1 Kings");
    reveal_strlit("2 Kings");
    reveal_strlit("1 Chronicles");
    reveal_strlit("2 Chronicles");
    reveal_strlit("Ezra");
    reveal_strlit("Nehemiah");
    reveal_strlit("Esther");
    reveal_strlit("Job");
    reveal_strlit("Psalms");
    reveal_strlit("Proverbs");
    reveal_strlit("Ecclesiastes");
    reveal_strlit("Song of Solomon");
    reveal_strlit("Isaiah");
    reveal_strlit("Jeremiah");
    reveal_strlit("Lamentations");
    reveal_strlit("Ezekiel");
    reveal_strlit("Daniel");
    reveal_strlit("Hosea");
    reveal_strlit("Joel");
    reveal_strlit("Amos");
    reveal_strlit("Obadiah");
    reveal_strlit("Jonah");
    reveal_strlit("Micah");
    reveal_strlit("Nahum");
    reveal_strlit("Habakkuk");
    reveal_strlit("Zephaniah");
    reveal_strlit("Haggai");
    reveal_strlit("Zechariah");
    reveal_strlit("Malachi");
    reveal_strlit("Matthew");
    reveal_strlit("Mark");
    reveal_strlit("Luke");
    reveal_strlit("John");
    reveal_strlit("Acts");
    reveal_strlit("Romans");
    reveal_strlit("1 Corinthians");
    reveal_strlit("2 Corinthians");
    reveal_strlit("Galatians");
    reveal_strlit("Ephesians");
    reveal_strlit("Philippians");
    reveal_strlit("Colossians");
    reveal_strlit("1 Thessalonians");
    reveal_strlit("2 Thessalonians");
    reveal_strlit("1 Timothy");
    reveal_strlit("2 Timothy");
    reveal_strlit("Titus");
    assert("Hosea"@[0] != "Titus"@[0]);
    assert("Jonah"@[0] != "Titus"@[0]);
    assert("Micah"@[0] != "Titus"@[0]);
    assert("Nahum"@[0] != "Titus"@[0]);
    assert(c[55] == "Titus"@);
    assert(
        c[0] != "Titus"@ && c[1] != "Titus"@ && c[2] != "Titus"@ && c[3] != "Titus"@
        && c[4] != "Titus"@ && c[5] != "Titus"@ && c[6] != "Titus"@ && c[7] != "Titus"@
        && c[8] != "Titus"@ && c[9] != "Titus"@ && c[10] != "Titus"@ && c[11] != "Titus"@
        && c[12] != "Titus"@ && c[13] != "Titus"@ && c[14] != "Titus"@ && c[15] != "Titus"@
        && c[16] != "Titus"@ && c[17] != "Titus"@ && c[18] != "Titus"@ && c[19] != "Titus"@
        && c[20] != "Titus"@ && c[21] != "Titus"@ && c[22] != "Titus"@ && c[23] != "Titus"@
        && c[24] != "Titus"@ && c[25] != "Titus"@ && c[26] != "Titus"@ && c[27] != "Titus"@
        && c[28] != "Titus"@ && c[29] != "Titus"@ && c[30] != "Titus"@ && c[31] != "Titus"@
        && c[32] != "Titus"@ && c[33] != "Titus"@ && c[34] != "Titus"@ && c[35] != "Titus"@
        && c[36] != "Titus"@ && c[37] != "Titus"@ && c[38] != "Titus"@ && c[39] != "Titus"@
        && c[40] != "Titus"@ && c[41] != "Titus"@ && c[42] != "Titus"@ && c[43] != "Titus"@
        && c[44] != "Titus"@ && c[45] != "Titus"@ && c[46] != "Titus"@ && c[47] != "Titus"@
        && c[48] != "Titus"@ && c[49] != "Titus"@ && c[50] != "Titus"@ && c[51] != "Titus"@
        && c[52] != "Titus"@ && c[53] != "Titus"@ && c[54] != "Titus"@
    );
    lemma_position_from(c, "Titus"@, 0, 55);
}

/// Philemon is book 56.
proof fn key_of_philemon()
    ensures
        canonical_key("Philemon"@) == 56,
{
    let c = canonical_books();
    reveal_strlit("Genesis");
    reveal_strlit("Exodus");
    reveal_strlit("Leviticus");
    reveal_strlit("Numbers");
    reveal_strlit("Deuteronomy");
    reveal_strlit("Joshua");
    reveal_strlit("Judges");
    reveal_strlit("Ruth");
    reveal_strlit("1 Samuel");
    reveal_strlit("2 Samuel");
    reveal_strlit("1 Kings");
    reveal_strlit("2 Kings");
    reveal_strlit("1 Chronicles");
    reveal_strlit("2 Chronicles");
    reveal_strlit("Ezra");
    reveal_strlit("Nehemiah");
    reveal_strlit("Esther");
    reveal_strlit("Job");
    reveal_strlit("Psalms");
    reveal_strlit("Proverbs");
    reveal_strlit("Ecclesiastes");
    reveal_strlit("Song of Solomon");
    reveal_strlit("Isaiah");
    reveal_strlit("Jeremiah");
    reveal_strlit("Lamentations");
    reveal_strlit("Ezekiel");
    reveal_strlit("Daniel");
    reveal_strlit("Hosea");
    reveal_strlit("Joel");
    reveal_strlit("Amos");
    reveal_strlit("Obadiah");
    reveal_strlit("Jonah");
    reveal_strlit("Micah");
    reveal_strlit("Nahum");
    reveal_strlit("Habakkuk");
    reveal_strlit("Zephaniah");
    reveal_strlit("Haggai");
    reveal_strlit("Zechariah");
    reveal_strlit("Malachi");
    reveal_strlit("Matthew");
    reveal_strlit("Mark");
    reveal_strlit("Luke");
    reveal_strlit("John");
    reveal_strlit("Acts");
    reveal_strlit("Romans");
    reveal_strlit("1 Corinthians");
    reveal_strlit("2 Corinthians");
    reveal_strlit("Galatians");
    reveal_strlit("Ephesians");
    reveal_strlit("Philippians");
    reveal_strlit("Colossians");
    reveal_strlit("1 Thessalonians");
    reveal_strlit("2 Thessalonians");
    reveal_strlit("1 Timothy");
    reveal_strlit("2 Timothy");
    reveal_strlit("Titus");
    reveal_strlit("Philemon");
    assert("1 Samuel"@[0] != "Philemon"@[0]);
    assert("2 Samuel"@[0] != "Philemon"@[0]);
    assert("Nehemiah"@[0] != "Philemon"@[0]);
    assert("Proverbs"@[1] != "Philemon"@[1]);
    assert("Jeremiah"@[0] != "Philemon"@[0]);
    assert("Habakkuk"@[0] != "Philemon"@[0]);
    assert(c[56] == "Philemon"@);
    assert(
        c[0] != "Philemon"@ && c[1] != "Philemon"@ && c[2] != "Philemon"@ && c[3] != "Philemon"@
        && c[4] != "Philemon"@ && c[5] != "Philemon"@ && c[6] != "Philemon"@ && c[7] != "Philemon"@
        && c[8] != "Philemon"@ && c[9] != "Philemon"@ && c[10] != "Philemon"@
        && c[11] != "Philemon"@ && c[12] != "Philemon"@ && c[13] != "Philemon"@
        && c[14] != "Philemon"@ && c[15] != "Philemon"@ && c[16] != "Philemon"@
        && c[17] != "Philemon"@ && c[18] != "Philemon"@ && c[19] != "Philemon"@
        && c[20] != "Philemon"@ && c[21] != "Philemon"@ && c[22] != "Philemon"@
        && c[23] != "Philemon"@ && c[24] != "Philemon"@ && c[25] != "Philemon"@
        && c[26] != "Philemon"@ && c[27] != "Philemon"@ && c[28] != "Philemon"@
        && c[29] != "Philemon"@ && c[30] != "Philemon"@ && c[31] != "Philemon"@
        && c[32] != "Philemon"@ && c[33] != "Philemon"@ && c[34] != "Philemon"@
        && c[35] != "Philemon"@ && c[36] != "Philemon"@ && c[37] != "Philemon"@
        && c[38] != "Philemon"@ && c[39] != "Philemon"@ && c[40] != "Philemon"@
        && c[41] != "Philemon"@ && c[42] != "Philemon"@ && c[43] != "Philemon"@
        && c[44] != "Philemon"@ && c[45] != "Philemon"@ && c[46] != "Philemon"@
        && c[47] != "Philemon"@ && c[48] != "Philemon"@ && c[49] != "Philemon"@
        && c[50] != "Philemon"@ && c[51] != "Philemon"@ && c[52] != "Philemon"@
        && c[53] != "Philemon"@ && c[54] != "Philemon"@ && c[55] != "Philemon"@
    );
    lemma_position_from(c, "Philemon"@, 0, 56);
}

/// Hebrews is book 57.
proof fn key_of_hebrews()
    ensures
        canonical_key("Hebrews"@) == 57,
{
    let c = canonical_books();
    reveal_strlit("Genesis");
    reveal_strlit("Exodus");
    reveal_strlit("Leviticus");
    reveal_strlit("Numbers");
    reveal_strlit("Deuteronomy");
    reveal_strlit("Joshua");
    reveal_strlit("Judges");
    reveal_strlit("Ruth");
    reveal_strlit("1 Samuel");
    reveal_strlit("2 Samuel");
    reveal_strlit("1 Kings");
    reveal_strlit("2 Kings");
    reveal_strlit("1 Chronicles");
    reveal_strlit("2 Chronicles");
    reveal_strlit("Ezra");
    reveal_strlit("Nehemiah");
    reveal_strlit("Esther");
    reveal_strlit("Job");
    reveal_strlit("Psalms");
    reveal_strlit("Proverbs");
    reveal_strlit("Ecclesiastes");
    reveal_strlit("Song of Solomon");
    reveal_strlit("Isaiah");
    reveal_strlit("Jeremiah");
    reveal_strlit("Lamentations");
    reveal_strlit("Ezekiel");
    reveal_strlit("Daniel");
    reveal_strlit("Hosea");
    reveal_strlit("Joel");
    reveal_strlit("Amos");
    reveal_strlit("Obadiah");
    reveal_strlit("Jonah");
    reveal_strlit("Micah");
    reveal_strlit("Nahum");
    reveal_strlit("Habakkuk");
    reveal_strlit("Zephaniah");
    reveal_strlit("Haggai");
    reveal_strlit("Zechariah");
    reveal_strlit("Malachi");
    reveal_strlit("Matthew");
    reveal_strlit("Mark");
    reveal_strlit("Luke");
    reveal_strlit("John");
    reveal_strlit("Acts");
    reveal_strlit("Romans");
    reveal_strlit("1 Corinthians");
    reveal_strlit("2 Corinthians");
    reveal_strlit("Galatians");
    reveal_strlit("Ephesians");
    reveal_strlit("Philippians");
    reveal_strlit("Colossians");
    reveal_strlit("1 Thessalonians");
    reveal_strlit("2 Thessalonians");
    reveal_strlit("1 Timothy");
    reveal_strlit("2 Timothy");
    reveal_strlit("Titus");
    reveal_strlit("Philemon");
    reveal_strlit("Hebrews");
    assert("Genesis"@[0] != "Hebrews"@[0]);
    assert("Numbers"@[0] != "Hebrews"@[0]);
    assert("1 Kings"@[0] != "Hebrews"@[0]);
    assert("2 Kings"@[0] != "Hebrews"@[0]);
    assert("Ezekiel"@[0] != "Hebrews"@[0]);
    assert("Obadiah"@[0] != "Hebrews"@[0]);
    assert("Malachi"@[0] != "Hebrews"@[0]);
    assert("Matthew"@[0] != "Hebrews"@[0]);
    assert(c[57] == "Hebrews"@);
    assert(
        c[0] != "Hebrews"@ && c[1] != "Hebrews"@ && c[2] != "Hebrews"@ && c[3] != "Hebrews"@
        && c[4] != "Hebrews"@ && c[5] != "Hebrews"@ && c[6] != "Hebrews"@ && c[7] != "Hebrews"@
        && c[8] != "Hebrews"@ && c[9] != "Hebrews"@ && c[10] != "Hebrews"@ && c[11] != "Hebrews"@
        && c[12] != "Hebrews"@ && c[13] != "Hebrews"@ && c[14] != "Hebrews"@ && c[15] != "Hebrews"@
        && c[16] != "Hebrews"@ && c[17] != "Hebrews"@ && c[18] != "Hebrews"@ && c[19] != "Hebrews"@
        && c[20] != "Hebrews"@ && c[21] != "Hebrews"@ && c[22] != "Hebrews"@ && c[23] != "Hebrews"@
        && c[24] != "Hebrews"@ && c[25] != "Hebrews"@ && c[26] != "Hebrews"@ && c[27] != "Hebrews"@
        && c[28] != "Hebrews"@ && c[29] != "Hebrews"@ && c[30] != "Hebrews"@ && c[31] != "Hebrews"@
        && c[32] != "Hebrews"@ && c[33] != "Hebrews"@ && c[34] != "Hebrews"@ && c[35] != "Hebrews"@
        && c[36] != "Hebrews"@ && c[37] != "Hebrews"@ && c[38] != "Hebrews"@ && c[39] != "Hebrews"@
        && c[40] != "Hebrews"@ && c[41] != "Hebrews"@ && c[42] != "Hebrews"@ && c[43] != "Hebrews"@
        && c[44] != "Hebrews"@ && c[45] != "Hebrews"@ && c[46] != "Hebrews"@ && c[47] != "Hebrews"@
        && c[48] != "Hebrews"@ && c[49] != "Hebrews"@ && c[50] != "Hebrews"@ && c[51] != "Hebrews"@
        && c[52] != "Hebrews"@ && c[53] != "Hebrews"@ && c[54] != "Hebrews"@ && c[55] != "Hebrews"@
        && c[56] != "Hebrews"@
    );
    lemma_position_from(c, "Hebrews"@, 0, 57);
}

/// James is book 58.
proof fn key_of_james()
    ensures
        canonical_key("James"@) == 58,
{
    let c = canonical_books();
    reveal_strlit("Genesis");
    reveal_strlit("Exodus");
    reveal_strlit("Leviticus");
    reveal_strlit("Numbers");
    reveal_strlit("Deuteronomy");
    reveal_strlit("Joshua");
    reveal_strlit("Judges");
    reveal_strlit("Ruth");
    reveal_strlit("1 Samuel");
    reveal_strlit("2 Samuel");
    reveal_strlit("1 Kings");
    reveal_strlit("2 Kings");
    reveal_strlit("1 Chronicles");
    reveal_strlit("2 Chronicles");
    reveal_strlit("Ezra");
    reveal_strlit("Nehemiah");
    reveal_strlit("Esther");
    reveal_strlit("Job");
    reveal_strlit("Psalms");
    reveal_strlit("Proverbs");
    reveal_strlit("Ecclesiastes");
    reveal_strlit("Song of Solomon");
    reveal_strlit("Isaiah");
    reveal_strlit("Jeremiah");
    reveal_strlit("Lamentations");
    reveal_strlit("Ezekiel");
    reveal_strlit("Daniel");
    reveal_strlit("Hosea");
    reveal_strlit("Joel");
    reveal_strlit("Amos");
    reveal_strlit("Obadiah");
    reveal_strlit("Jonah");
    reveal_strlit("Micah");
    reveal_strlit("Nahum");
    reveal_strlit("Habakkuk");
    reveal_strlit("Zephaniah");
    reveal_strlit("Haggai");
    reveal_strlit("Zechariah");
    reveal_strlit("Malachi");
    reveal_strlit("Matthew");
    reveal_strlit("Mark");
    reveal_strlit("Luke");
    reveal_strlit("John");
    reveal_strlit("Acts");
    reveal_strlit("Romans");
    reveal_strlit("1 Corinthians");
    reveal_strlit("2 Corinthians");
    reveal_strlit("Galatians");
    reveal_strlit("Ephesians");
    reveal_strlit("Philippians");
    reveal_strlit("Colossians");
    reveal_strlit("1 Thessalonians");
    reveal_strlit("2 Thessalonians");
    reveal_strlit("1 Timothy");
    reveal_strlit("2 Timothy");
    reveal_strlit("Titus");
    reveal_strlit("Philemon");
    reveal_strlit("Hebrews");
    reveal_strlit("James");
    assert("Hosea"@[0] != "James"@[0]);
    assert("Jonah"@[1] != "James"@[1]);
    assert("Micah"@[0] != "James"@[0]);
    assert("Nahum"@[0] != "James"@[0]);
    assert("Titus"@[0] != "James"@[0]);
    assert(c[58] == "James"@);
    assert(
        c[0] != "James"@ && c[1] != "James"@ && c[2] != "James"@ && c[3] != "James"@
        && c[4] != "James"@ && c[5] != "James"@ && c[6] != "James"@ && c[7] != "James"@
        && c[8] != "James"@ && c[9] != "James"@ && c[10] != "James"@ && c[11] != "James"@
        && c[12] != "James"@ && c[13] != "James"@ && c[14] != "James"@ && c[15] != "James"@
        && c[16] != "James"@ && c[17] != "James"@ && c[18] != "James"@ && c[19] != "James"@
        && c[20] != "James"@ && c[21] != "James"@ && c[22] != "James"@ && c[23] != "James"@
        && c[24] != "James"@ && c[25] != "James"@ && c[26] != "James"@ && c[27] != "James"@
        && c[28] != "James"@ && c[29] != "James"@ && c[30] != "James"@ && c[31] != "James"@
        && c[32] != "James"@ && c[33] != "James"@ && c[34] != "James"@ && c[35] != "James"@
        && c[36] != "James"@ && c[37] != "James"@ && c[38] != "James"@ && c[39] != "James"@
        && c[40] != "James"@ && c[41] != "James"@ && c[42] != "James"@ && c[43] != "James"@
        && c[44] != "James"@ && c[45] != "James"@ && c[46] != "James"@ && c[47] != "James"@
        && c[48] != "James"@ && c[49] != "James"@ && c[50] != "James"@ && c[51] != "James"@
        && c[52] != "James"@ && c[53] != "James"@ && c[54] != "James"@ && c[55] != "James"@
        && c[56] != "James"@ && c[57] != "James"@
    );
    lemma_position_from(c, "James"@, 0, 58);
}

/// 1 Peter is book 59.
proof fn key_of_1_peter()
    ensures
        canonical_key("1 Peter"@) == 59,
{
    let c = canonical_books();
    reveal_strlit("Genesis");
    reveal_strlit("Exodus");
    reveal_strlit("Leviticus");
    reveal_strlit("Numbers");
    reveal_strlit("Deuteronomy");
    reveal_strlit("Joshua");
    reveal_strlit("Judges");
    reveal_strlit("Ruth");
    reveal_strlit("1 Samuel");
    reveal_strlit("2 Samuel");
    reveal_strlit("1 Kings");
    reveal_strlit("2 Kings");
    reveal_strlit("1 Chronicles");
    reveal_strlit("2 Chronicles");
    reveal_strlit("Ezra");
    reveal_strlit("Nehemiah");
    reveal_strlit("Esther");
    reveal_strlit("Job");
    reveal_strlit("Psalms");
    reveal_strlit("Proverbs");
    reveal_strlit("Ecclesiastes");
    reveal_strlit("Song of Solomon");
    reveal_strlit("Isaiah");
    reveal_strlit("Jeremiah");
    reveal_strlit("Lamentations");
    reveal_strlit("Ezekiel");
    reveal_strlit("Daniel");
    reveal_strlit("Hosea");
    reveal_strlit("Joel");
    reveal_strlit("Amos");
    reveal_strlit("Obadiah");
    reveal_strlit("Jonah");
    reveal_strlit("Micah");
    reveal_strlit("Nahum");
    reveal_strlit("Habakkuk");
    reveal_strlit("Zephaniah");
    reveal_strlit("Haggai");
    reveal_strlit("Zechariah");
    reveal_strlit("Malachi");
    reveal_strlit("Matthew");
    reveal_strlit("Mark");
    reveal_strlit("Luke");
    reveal_strlit("John");
    reveal_strlit("Acts");
    reveal_strlit("Romans");
    reveal_strlit("1 Corinthians");
    reveal_strlit("2 Corinthians");
    reveal_strlit("Galatians");
    reveal_strlit("Ephesians");
    reveal_strlit("Philippians");
    reveal_strlit("Colossians");
    reveal_strlit("1 Thessalonians");
    reveal_strlit("2 Thessalonians");
    reveal_strlit("1 Timothy");
    reveal_strlit("2 Timothy");
    reveal_strlit("Titus");
    reveal_strlit("Philemon");
    reveal_strlit("Hebrews");
    reveal_strlit("James");
    reveal_strlit("1 Peter");
    assert("Genesis"@[0] != "1 Peter"@[0]);
    assert("Numbers"@[0] != "1 Peter"@[0]);
    assert("1 Kings"@[2] != "1 Peter"@[2]);
    assert("2 Kings"@[0] != "1 Peter"@[0]);
    assert("Ezekiel"@[0] != "1 Peter"@[0]);
    assert("Obadiah"@[0] != "1 Peter"@[0]);
    assert("Malachi"@[0] != "1 Peter"@[0]);
    assert("Matthew"@[0] != "1 Peter"@[0]);
    assert("Hebrews"@[0] != "1 Peter"@[0]);
    assert(c[59] == "1 Peter"@);
    assert(
        c[0] != "1 Peter"@ && c[1] != "1 Peter"@ && c[2] != "1 Peter"@ && c[3] != "1 Peter"@
        && c[4] != "1 Peter"@ && c[5] != "1 Peter"@ && c[6] != "1 Peter"@ && c[7] != "1 Peter"@
        && c[8] != "1 Peter"@ && c[9] != "1 Peter"@ && c[10] != "1 Peter"@ && c[11] != "1 Peter"@
        && c[12] != "1 Peter"@ && c[13] != "1 Peter"@ && c[14] != "1 Peter"@ && c[15] != "1 Peter"@
        && c[16] != "1 Peter"@ && c[17] != "1 Peter"@ && c[18] != "1 Peter"@ && c[19] != "1 Peter"@
        && c[20] != "1 Peter"@ && c[21] != "1 Peter"@ && c[22] != "1 Peter"@ && c[23] != "1 Peter"@
        && c[24] != "1 Peter"@ && c[25] != "1 Peter"@ && c[26] != "1 Peter"@ && c[27] != "1 Peter"@
        && c[28] != "1 Peter"@ && c[29] != "1 Peter"@ && c[30] != "1 Peter"@ && c[31] != "1 Peter"@
        && c[32] != "1 Peter"@ && c[33] != "1 Peter"@ && c[34] != "1 Peter"@ && c[35] != "1 Peter"@
        && c[36] != "1 Peter"@ && c[37] != "1 Peter"@ && c[38] != "1 Peter"@ && c[39] != "1 Peter"@
        && c[40] != "1 Peter"@ && c[41] != "1 Peter"@ && c[42] != "1 Peter"@ && c[43] != "1 Peter"@
        && c[44] != "1 Peter"@ && c[45] != "1 Peter"@ && c[46] != "1 Peter"@ && c[47] != "1 Peter"@
        && c[48] != "1 Peter"@ && c[49] != "1 Peter"@ && c[50] != "1 Peter"@ && c[51] != "1 Peter"@
        && c[52] != "1 Peter"@ && c[53] != "1 Peter"@ && c[54] != "1 Peter"@ && c[55] != "1 Peter"@
        && c[56] != "1 Peter"@ && c[57] != "1 Peter"@ && c[58] != "1 Peter"@
    );
    lemma_position_from(c, "1 Peter"@, 0, 59);
}

/// 2 Peter is book 60.
proof fn key_of_2_peter()
    ensures
        canonical_key("2 Peter"@) == 60,
{
    let c = canonical_books();
    reveal_strlit("Genesis");
    reveal_strlit("Exodus");
    reveal_strlit("Leviticus");
    reveal_strlit("Numbers");
    reveal_strlit("Deuteronomy");
    reveal_strlit("Joshua");
    reveal_strlit("Judges");
    reveal_strlit("Ruth");
    reveal_strlit("1 Samuel");
    reveal_strlit("2 Samuel");
    reveal_strlit("1 Kings");
    reveal_strlit("2 Kings");
    reveal_strlit("1 Chronicles");
    reveal_strlit("2 Chronicles");
    reveal_strlit("Ezra");
    reveal_strlit("Nehemiah");
    reveal_strlit("Esther");
    reveal_strlit("Job");
    reveal_strlit("Psalms");
    reveal_strlit("Proverbs");
    reveal_strlit("Ecclesiastes");
    reveal_strlit("Song of Solomon");
    reveal_strlit("Isaiah");
    reveal_strlit("Jeremiah");
    reveal_strlit("Lamentations");
    reveal_strlit("Ezekiel");
    reveal_strlit("Daniel");
    reveal_strlit("Hosea");
    reveal_strlit("Joel");
    reveal_strlit("Amos");
    reveal_strlit("Obadiah");
    reveal_strlit("Jonah");
    reveal_strlit("Micah");
    reveal_strlit("Nahum");
    reveal_strlit("Habakkuk");
    reveal_strlit("Zephaniah");
    reveal_strlit("Haggai");
    reveal_strlit("Zechariah");
    reveal_strlit("Malachi");
    reveal_strlit("Matthew");
    reveal_strlit("Mark");
    reveal_strlit("Luke");
    reveal_strlit("John");
    reveal_strlit("Acts");
    reveal_strlit("Romans");
    reveal_strlit("1 Corinthians");
    reveal_strlit("2 Corinthians");
    reveal_strlit("Galatians");
    reveal_strlit("Ephesians");
    reveal_strlit("Philippians");
    reveal_strlit("Colossians");
    reveal_strlit("1 Thessalonians");
    reveal_strlit("2 Thessalonians");
    reveal_strlit("1 Timothy");
    reveal_strlit("2 Timothy");
    reveal_strlit("Titus");
    reveal_strlit("Philemon");
    reveal_strlit("Hebrews");
    reveal_strlit("James");
    reveal_strlit("1 Peter");
    reveal_strlit("2 Peter");
    assert("Genesis"@[0] != "2 Peter"@[0]);
    assert("Numbers"@[0] != "2 Peter"@[0]);
    assert("1 Kings"@[0] != "2 Peter"@[0]);
    assert("2 Kings"@[2] != "2 Peter"@[2]);
    assert("Ezekiel"@[0] != "2 Peter"@[0]);
    assert("Obadiah"@[0] != "2 Peter"@[0]);
    assert("Malachi"@[0] != "2 Peter"@[0]);
    assert("Matthew"@[0] != "2 Peter"@[0]);
    assert("Hebrews"@[0] != "2 Peter"@[0]);
    assert("1 Peter"@[0] != "2 Peter"@[0]);
    assert(c[60] == "2 Peter"@);
    assert(
        c[0] != "2 Peter"@ && c[1] != "2 Peter"@ && c[2] != "2 Peter"@ && c[3] != "2 Peter"@
        && c[4] != "2 Peter"@ && c[5] != "2 Peter"@ && c[6] != "2 Peter"@ && c[7] != "2 Peter"@
        && c[8] != "2 Peter"@ && c[9] != "2 Peter"@ && c[10] != "2 Peter"@ && c[11] != "2 Peter"@
        && c[12] != "2 Peter"@ && c[13] != "2 Peter"@ && c[14] != "2 Peter"@ && c[15] != "2 Peter"@
        && c[16] != "2 Peter"@ && c[17] != "2 Peter"@ && c[18] != "2 Peter"@ && c[19] != "2 Peter"@
        && c[20] != "2 Peter"@ && c[21] != "2 Peter"@ && c[22] != "2 Peter"@ && c[23] != "2 Peter"@
        && c[24] != "2 Peter"@ && c[25] != "2 Peter"@ && c[26] != "2 Peter"@ && c[27] != "2 Peter"@
        && c[28] != "2 Peter"@ && c[29] != "2 Peter"@ && c[30] != "2 Peter"@ && c[31] != "2 Peter"@
        && c[32] != "2 Peter"@ && c[33] != "2 Peter"@ && c[34] != "2 Peter"@ && c[35] != "2 Peter"@
        && c[36] != "2 Peter"@ && c[37] != "2 Peter"@ && c[38] != "2 Peter"@ && c[39] != "2 Peter"@
        && c[40] != "2 Peter"@ && c[41] != "2 Peter"@ && c[42] != "2 Peter"@ && c[43] != "2 Peter"@
        && c[44] != "2 Peter"@ && c[45] != "2 Peter"@ && c[46] != "2 Peter"@ && c[47] != "2 Peter"@
        && c[48] != "2 Peter"@ && c[49] != "2 Peter"@ && c[50] != "2 Peter"@ && c[51] != "2 Peter"@
        && c[52] != "2 Peter"@ && c[53] != "2 Peter"@ && c[54] != "2 Peter"@ && c[55] != "2 Peter"@
        && c[56] != "2 Peter"@ && c[57] != "2 Peter"@ && c[58] != "2 Peter"@ && c[59] != "2 Peter"@
    );
    lemma_position_from(c, "2 Peter"@, 0, 60);
}

/// 1 John is book 61.
proof fn key_of_1_john()
    ensures
        canonical_key("1 John"@) == 61,
{
    let c = canonical_books();
    reveal_strlit("Genesis");
    reveal_strlit("Exodus");
    reveal_strlit("Leviticus");
    reveal_strlit("Numbers");
    reveal_strlit("Deuteronomy");
    reveal_strlit("Joshua");
    reveal_strlit("Judges");
    reveal_strlit("Ruth");
    reveal_strlit("1 Samuel");
    reveal_strlit("2 Samuel");
    reveal_strlit("1 Kings");
    reveal_strlit("2 Kings");
    reveal_strlit("1 Chronicles");
    reveal_strlit("2 Chronicles");
    reveal_strlit("Ezra");
    reveal_strlit("Nehemiah");
    reveal_strlit("Esther");
    reveal_strlit("Job");
    reveal_strlit("Psalms");
    reveal_strlit("Proverbs");
    reveal_strlit("Ecclesiastes");
    reveal_strlit("Song of Solomon");
    reveal_strlit("Isaiah");
    reveal_strlit("Jeremiah");
    reveal_strlit("Lamentations");
    reveal_strlit("Ezekiel");
    reveal_strlit("Daniel");
    reveal_strlit("Hosea");
    reveal_strlit("Joel");
    reveal_strlit("Amos");
    reveal_strlit("Obadiah");
    reveal_strlit("Jonah");
    reveal_strlit("Micah");
    reveal_strlit("Nahum");
    reveal_strlit("Habakkuk");
    reveal_strlit("Zephaniah");
    reveal_strlit("Haggai");
    reveal_strlit("Zechariah");
    reveal_strlit("Malachi");
    reveal_strlit("Matthew");
    reveal_strlit("Mark");
    reveal_strlit("Luke");
    reveal_strlit("John");
    reveal_strlit("Acts");
    reveal_strlit("Romans");
    reveal_strlit("1 Corinthians");
    reveal_strlit("2 Corinthians");
    reveal_strlit("Galatians");
    reveal_strlit("Ephesians");
    reveal_strlit("Philippians");
    reveal_strlit("Colossians");
    reveal_strlit("1 Thessalonians");
    reveal_strlit("2 Thessalonians");
    reveal_strlit("1 Timothy");
    reveal_strlit("2 Timothy");
    reveal_strlit("Titus");
    reveal_strlit("Philemon");
    reveal_strlit("Hebrews");
    reveal_strlit("James");
    reveal_strlit("1 Peter");
    reveal_strlit("2 Peter");
    reveal_strlit("1 John");
    assert("Exodus"@[0] != "1 John"@[0]);
    assert("Joshua"@[0] != "1 John"@[0]);
    assert("Judges"@[0] != "1 John"@[0]);
    assert("Esther"@[0] != "1 John"@[0]);
    assert("Psalms"@[0] != "1 John"@[0]);
    assert("Isaiah"@[0] != "1 John"@[0]);
    assert("Daniel"@[0] != "1 John"@[0]);
    assert("Haggai"@[0] != "1 John"@[0]);
    assert("Romans"@[0] != "1 John"@[0]);
    assert(c[61] == "1 John"@);
    assert(
        c[0] != "1 John"@ && c[1] != "1 John"@ && c[2] != "1 John"@ && c[3] != "1 John"@
        && c[4] != "1 John"@ && c[5] != "1 John"@ && c[6] != "1 John"@ && c[7] != "1 John"@
        && c[8] != "1 John"@ && c[9] != "1 John"@ && c[10] != "1 John"@ && c[11] != "1 John"@
        && c[12] != "1 John"@ && c[13] != "1 John"@ && c[14] != "1 John"@ && c[15] != "1 John"@
        && c[16] != "1 John"@ && c[17] != "1 John"@ && c[18] != "1 John"@ && c[19] != "1 John"@
        && c[20] != "1 John"@ && c[21] != "1 John"@ && c[22] != "1 John"@ && c[23] != "1 John"@
        && c[24] != "1 John"@ && c[25] != "1 John"@ && c[26] != "1 John"@ && c[27] != "1 John"@
        && c[28] != "1 John"@ && c[29] != "1 John"@ && c[30] != "1 John"@ && c[31] != "1 John"@
        && c[32] != "1 John"@ && c[33] != "1 John"@ && c[34] != "1 John"@ && c[35] != "1 John"@
        && c[36] != "1 John"@ && c[37] != "1 John"@ && c[38] != "1 John"@ && c[39] != "1 John"@
        && c[40] != "1 John"@ && c[41] != "1 John"@ && c[42] != "1 John"@ && c[43] != "1 John"@
        && c[44] != "1 John"@ && c[45] != "1 John"@ && c[46] != "1 John"@ && c[47] != "1 John"@
        && c[48] != "1 John"@ && c[49] != "1 John"@ && c[50] != "1 John"@ && c[51] != "1 John"@
        && c[52] != "1 John"@ && c[53] != "1 John"@ && c[54] != "1 John"@ && c[55] != "1 John"@
        && c[56] != "1 John"@ && c[57] != "1 John"@ && c[58] != "1 John"@ && c[59] != "1 John"@
        && c[60] != "1 John"@
    );
    lemma_position_from(c, "1 John"@, 0, 61);
}

/// 2 John is book 62.
proof fn key_of_2_john()
    ensures
        canonical_key("2 John"@) == 62,
{
    let c = canonical_books();
    reveal_strlit("Genesis");
    reveal_strlit("Exodus");
    reveal_strlit("Leviticus");
    reveal_strlit("Numbers");
    reveal_strlit("Deuteronomy");
    reveal_strlit("Joshua");
    reveal_strlit("Judges");
    reveal_strlit("Ruth");
    reveal_strlit("1 Samuel");
    reveal_strlit("2 Samuel");
    reveal_strlit("1 Kings");
    reveal_strlit("2 Kings");
    reveal_strlit("1 Chronicles");
    reveal_strlit("2 Chronicles");
    reveal_strlit("Ezra");
    reveal_strlit("Nehemiah");
    reveal_strlit("Esther");
    reveal_strlit("Job");
    reveal_strlit("Psalms");
    reveal_strlit("Proverbs");
    reveal_strlit("Ecclesiastes");
    reveal_strlit("Song of Solomon");
    reveal_strlit("Isaiah");
    reveal_strlit("Jeremiah");
    reveal_strlit("Lamentations");
    reveal_strlit("Ezekiel");
    reveal_strlit("Daniel");
    reveal_strlit("Hosea");
    reveal_strlit("Joel");
    reveal_strlit("Amos");
    reveal_strlit("Obadiah");
    reveal_strlit("Jonah");
    reveal_strlit("Micah");
    reveal_strlit("Nahum");
    reveal_strlit("Habakkuk");
    reveal_strlit("Zephaniah");
    reveal_strlit("Haggai");
    reveal_strlit("Zechariah");
    reveal_strlit("Malachi");
    reveal_strlit("Matthew");
    reveal_strlit("Mark");
    reveal_strlit("Luke");
    reveal_strlit("John");
    reveal_strlit("Acts");
    reveal_strlit("Romans");
    reveal_strlit("1 Corinthians");
    reveal_strlit("2 Corinthians");
    reveal_strlit("Galatians");
    reveal_strlit("Ephesians");
    reveal_strlit("Philippians");
    reveal_strlit("Colossians");
    reveal_strlit("1 Thessalonians");
    reveal_strlit("2 Thessalonians");
    reveal_strlit("1 Timothy");
    reveal_strlit("2 Timothy");
    reveal_strlit("Titus");
    reveal_strlit("Philemon");
    reveal_strlit("Hebrews");
    reveal_strlit("James");
    reveal_strlit("1 Peter");
    reveal_strlit("2 Peter");
    reveal_strlit("1 John");
    reveal_strlit("2 John");
    assert("Exodus"@[0] != "2 John"@[0]);
    assert("Joshua"@[0] != "2 John"@[0]);
    assert("Judges"@[0] != "2 John"@[0]);
    assert("Esther"@[0] != "2 John"@[0]);
    assert("Psalms"@[0] != "2 John"@[0]);
    assert("Isaiah"@[0] != "2 John"@[0]);
    assert("Daniel"@[0] != "2 John"@[0]);
    assert("Haggai"@[0] != "2 John"@[0]);
    assert("Romans"@[0] != "2 John"@[0]);
    assert("1 John"@[0] != "2 John"@[0]);
    assert(c[62] == "2 John"@);
    assert(
        c[0] != "2 John"@ && c[1] != "2 John"@ && c[2] != "2 John"@ && c[3] != "2 John"@
        && c[4] != "2 John"@ && c[5] != "2 John"@ && c[6] != "2 John"@ && c[7] != "2 John"@
        && c[8] != "2 John"@ && c[9] != "2 John"@ && c[10] != "2 John"@ && c[11] != "2 John"@
        && c[12] != "2 John"@ && c[13] != "2 John"@ && c[14] != "2 John"@ && c[15] != "2 John"@
        && c[16] != "2 John"@ && c[17] != "2 John"@ && c[18] != "2 John"@ && c[19] != "2 John"@
        && c[20] != "2 John"@ && c[21] != "2 John"@ && c[22] != "2 John"@ && c[23] != "2 John"@
        && c[24] != "2 John"@ && c[25] != "2 John"@ && c[26] != "2 John"@ && c[27] != "2 John"@
        && c[28] != "2 John"@ && c[29] != "2 John"@ && c[30] != "2 John"@ && c[31] != "2 John"@
        && c[32] != "2 John"@ && c[33] != "2 John"@ && c[34] != "2 John"@ && c[35] != "2 John"@
        && c[36] != "2 John"@ && c[37] != "2 John"@ && c[38] != "2 John"@ && c[39] != "2 John"@
        && c[40] != "2 John"@ && c[41] != "2 John"@ && c[42] != "2 John"@ && c[43] != "2 John"@
        && c[44] != "2 John"@ && c[45] != "2 John"@ && c[46] != "2 John"@ && c[47] != "2 John"@
        && c[48] != "2 John"@ && c[49] != "2 John"@ && c[50] != "2 John"@ && c[51] != "2 John"@
        && c[52] != "2 John"@ && c[53] != "2 John"@ && c[54] != "2 John"@ && c[55] != "2 John"@
        && c[56] != "2 John"@ && c[57] != "2 John"@ && c[58] != "2 John"@ && c[59] != "2 John"@
        && c[60] != "2 John"@ && c[61] != "2 John"@
    );
    lemma_position_from(c, "2 John"@, 0, 62);
}

/// 3 John is book 63.
proof fn key_of_3_john()
    ensures
        canonical_key("3 John"@) == 63,
{
    let c = canonical_books();
    reveal_strlit("Genesis");
    reveal_strlit("Exodus");
    reveal_strlit("Leviticus");
    reveal_strlit("Numbers");
    reveal_strlit("Deuteronomy");
    reveal_strlit("Joshua");
    reveal_strlit("Judges");
    reveal_strlit("Ruth");
    reveal_strlit("1 Samuel");
    reveal_strlit("2 Samuel");
    reveal_strlit("1 Kings");
    reveal_strlit("2 Kings");
    reveal_strlit("1 Chronicles");
    reveal_strlit("2 Chronicles");
    reveal_strlit("Ezra");
    reveal_strlit("Nehemiah");
    reveal_strlit("Esther");
    reveal_strlit("Job");
    reveal_strlit("Psalms");
    reveal_strlit("Proverbs");
    reveal_strlit("Ecclesiastes");
    reveal_strlit("Song of Solomon");
    reveal_strlit("Isaiah");
    reveal_strlit("Jeremiah");
    reveal_strlit("Lamentations");
    reveal_strlit("Ezekiel");
    reveal_strlit("Daniel");
    reveal_strlit("Hosea");
    reveal_strlit("Joel");
    reveal_strlit("Amos");
    reveal_strlit("Obadiah");
    reveal_strlit("Jonah");
    reveal_strlit("Micah");
    reveal_strlit("Nahum");
    reveal_strlit("Habakkuk");
    reveal_strlit("Zephaniah");
    reveal_strlit("Haggai");
    reveal_strlit("Zechariah");
    reveal_strlit("Malachi");
    reveal_strlit("Matthew");
    reveal_strlit("Mark");
    reveal_strlit("Luke");
    reveal_strlit("John");
    reveal_strlit("Acts");
    reveal_strlit("Romans");
    reveal_strlit("1 Corinthians");
    reveal_strlit("2 Corinthians");
    reveal_strlit("Galatians");
    reveal_strlit("Ephesians");
    reveal_strlit("Philippians");
    reveal_strlit("Colossians");
    reveal_strlit("1 Thessalonians");
    reveal_strlit("2 Thessalonians");
    reveal_strlit("1 Timothy");
    reveal_strlit("2 Timothy");
    reveal_strlit("Titus");
    reveal_strlit("Philemon");
    reveal_strlit("Hebrews");
    reveal_strlit("James");
    reveal_strlit("1 Peter");
    reveal_strlit("2 Peter");
    reveal_strlit("1 John");
    reveal_strlit("2 John");
    reveal_strlit("3 John");
    assert("Exodus"@[0] != "3 John"@[0]);
    assert("Joshua"@[0] != "3 John"@[0]);
    assert("Judges"@[0] != "3 John"@[0]);
    assert("Esther"@[0] != "3 John"@[0]);
    assert("Psalms"@[0] != "3 John"@[0]);
    assert("Isaiah"@[0] != "3 John"@[0]);
    assert("Daniel"@[0] != "3 John"@[0]);
    assert("Haggai"@[0] != "3 John"@[0]);
    assert("Romans"@[0] != "3 John"@[0]);
    assert("1 John"@[0] != "3 John"@[0]);
    assert("2 John"@[0] != "3 John"@[0]);
    assert(c[63] == "3 John"@);
    assert(
        c[0] != "3 John"@ && c[1] != "3 John"@ && c[2] != "3 John"@ && c[3] != "3 John"@
        && c[4] != "3 John"@ && c[5] != "3 John"@ && c[6] != "3 John"@ && c[7] != "3 John"@
        && c[8] != "3 John"@ && c[9] != "3 John"@ && c[10] != "3 John"@ && c[11] != "3 John"@
        && c[12] != "3 John"@ && c[13] != "3 John"@ && c[14] != "3 John"@ && c[15] != "3 John"@
        && c[16] != "3 John"@ && c[17] != "3 John"@ && c[18] != "3 John"@ && c[19] != "3 John"@
        && c[20] != "3 John"@ && c[21] != "3 John"@ && c[22] != "3 John"@ && c[23] != "3 John"@
        && c[24] != "3 John"@ && c[25] != "3 John"@ && c[26] != "3 John"@ && c[27] != "3 John"@
        && c[28] != "3 John"@ && c[29] != "3 John"@ && c[30] != "3 John"@ && c[31] != "3 John"@
        && c[32] != "3 John"@ && c[33] != "3 John"@ && c[34] != "3 John"@ && c[35] != "3 John"@
        && c[36] != "3 John"@ && c[37] != "3 John"@ && c[38] != "3 John"@ && c[39] != "3 John"@
        && c[40] != "3 John"@ && c[41] != "3 John"@ && c[42] != "3 John"@ && c[43] != "3 John"@
        && c[44] != "3 John"@ && c[45] != "3 John"@ && c[46] != "3 John"@ && c[47] != "3 John"@
        && c[48] != "3 John"@ && c[49] != "3 John"@ && c[50] != "3 John"@ && c[51] != "3 John"@
        && c[52] != "3 John"@ && c[53] != "3 John"@ && c[54] != "3 John"@ && c[55] != "3 John"@
        && c[56] != "3 John"@ && c[57] != "3 John"@ && c[58] != "3 John"@ && c[59] != "3 John"@
        && c[60] != "3 John"@ && c[61] != "3 John"@ && c[62] != "3 John"@
    );
    lemma_position_from(c, "3 John"@, 0, 63);
}

/// Jude is book 64.
proof fn key_of_jude()
    ensures
        canonical_key("Jude"@) == 64,
{
    let c = canonical_books();
    reveal_strlit("Genesis");
    reveal_strlit("Exodus");
    reveal_strlit("Leviticus");
    reveal_strlit("Numbers");
    reveal_strlit("Deuteronomy");
    reveal_strlit("Joshua");
    reveal_strlit("Judges");
    reveal_strlit("Ruth");
    reveal_strlit("1 Samuel");
    reveal_strlit("2 Samuel");
    reveal_strlit("1 Kings");
    reveal_strlit("2 Kings");
    reveal_strlit("1 Chronicles");
    reveal_strlit("2 Chronicles");
    reveal_strlit("Ezra");
    reveal_strlit("Nehemiah");
    reveal_strlit("Esther");
    reveal_strlit("Job");
    reveal_strlit("Psalms");
    reveal_strlit("Proverbs");
    reveal_strlit("Ecclesiastes");
    reveal_strlit("Song of Solomon");
    reveal_strlit("Isaiah");
    reveal_strlit("Jeremiah");
    reveal_strlit("Lamentations");
    reveal_strlit("Ezekiel");
    reveal_strlit("Daniel");
    reveal_strlit("Hosea");
    reveal_strlit("Joel");
    reveal_strlit("Amos");
    reveal_strlit("Obadiah");
    reveal_strlit("Jonah");
    reveal_strlit("Micah");
    reveal_strlit("Nahum");
    reveal_strlit("Habakkuk");
    reveal_strlit("Zephaniah");
    reveal_strlit("Haggai");
    reveal_strlit("Zechariah");
    reveal_strlit("Malachi");
    reveal_strlit("Matthew");
    reveal_strlit("Mark");
    reveal_strlit("Luke");
    reveal_strlit("John");
    reveal_strlit("Acts");
    reveal_strlit("Romans");
    reveal_strlit("1 Corinthians");
    reveal_strlit("2 Corinthians");
    reveal_strlit("Galatians");
    reveal_strlit("Ephesians");
    reveal_strlit("Philippians");
    reveal_strlit("Colossians");
    reveal_strlit("1 Thessalonians");
    reveal_strlit("2 Thessalonians");
    reveal_strlit("1 Timothy");
    reveal_strlit("2 Timothy");
    reveal_strlit("Titus");
    reveal_strlit("Philemon");
    reveal_strlit("Hebrews");
    reveal_strlit("James");
    reveal_strlit("1 Peter");
    reveal_strlit("2 Peter");
    reveal_strlit("1 John");
    reveal_strlit("2 John");
    reveal_strlit("3 John");
    reveal_strlit("Jude");
    assert("Ruth"@[0] != "Jude"@[0]);
    assert("Ezra"@[0] != "Jude"@[0]);
    assert("Joel"@[1] != "Jude"@[1]);
    assert("Amos"@[0] != "Jude"@[0]);
    assert("Mark"@[0] != "Jude"@[0]);
    assert("Luke"@[0] != "Jude"@[0]);
    assert("John"@[1] != "Jude"@[1]);
    assert("Acts"@[0] != "Jude"@[0]);
    assert(c[64] == "Jude"@);
    assert(
        c[0] != "Jude"@ && c[1] != "Jude"@ && c[2] != "Jude"@ && c[3] != "Jude"@
        && c[4] != "Jude"@ && c[5] != "Jude"@ && c[6] != "Jude"@ && c[7] != "Jude"@
        && c[8] != "Jude"@ && c[9] != "Jude"@ && c[10] != "Jude"@ && c[11] != "Jude"@
        && c[12] != "Jude"@ && c[13] != "Jude"@ && c[14] != "Jude"@ && c[15] != "Jude"@
        && c[16] != "Jude"@ && c[17] != "Jude"@ && c[18] != "Jude"@ && c[19] != "Jude"@
        && c[20] != "Jude"@ && c[21] != "Jude"@ && c[22] != "Jude"@ && c[23] != "Jude"@
        && c[24] != "Jude"@ && c[25] != "Jude"@ && c[26] != "Jude"@ && c[27] != "Jude"@
        && c[28] != "Jude"@ && c[29] != "Jude"@ && c[30] != "Jude"@ && c[31] != "Jude"@
        && c[32] != "Jude"@ && c[33] != "Jude"@ && c[34] != "Jude"@ && c[35] != "Jude"@
        && c[36] != "Jude"@ && c[37] != "Jude"@ && c[38] != "Jude"@ && c[39] != "Jude"@
        && c[40] != "Jude"@ && c[41] != "Jude"@ && c[42] != "Jude"@ && c[43] != "Jude"@
        && c[44] != "Jude"@ && c[45] != "Jude"@ && c[46] != "Jude"@ && c[47] != "Jude"@
        && c[48] != "Jude"@ && c[49] != "Jude"@ && c[50] != "Jude"@ && c[51] != "Jude"@
        && c[52] != "Jude"@ && c[53] != "Jude"@ && c[54] != "Jude"@ && c[55] != "Jude"@
        && c[56] != "Jude"@ && c[57] != "Jude"@ && c[58] != "Jude"@ && c[59] != "Jude"@
        && c[60] != "Jude"@ && c[61] != "Jude"@ && c[62] != "Jude"@ && c[63] != "Jude"@
    );
    lemma_position_from(c, "Jude"@, 0, 64);
}

/// Revelation is book 65.
proof fn key_of_revelation()
    ensures
        canonical_key("Revelation"@) == 65,
{
    let c = canonical_books();
    reveal_strlit("Genesis");
    reveal_strlit("Exodus");
    reveal_strlit("Leviticus");
    reveal_strlit("Numbers");
    reveal_strlit("Deuteronomy");
    reveal_strlit("Joshua");
    reveal_strlit("Judges");
    reveal_strlit("Ruth");
    reveal_strlit("1 Samuel");
    reveal_strlit("2 Samuel");
    reveal_strlit("1 Kings");
    reveal_strlit("2 Kings");
    reveal_strlit("1 Chronicles");
    reveal_strlit("2 Chronicles");
    reveal_strlit("Ezra");
    reveal_strlit("Nehemiah");
    reveal_strlit("Esther");
    reveal_strlit("Job");
    reveal_strlit("Psalms");
    reveal_strlit("Proverbs");
    reveal_strlit("Ecclesiastes");
    reveal_strlit("Song of Solomon");
    reveal_strlit("Isaiah");
    reveal_strlit("Jeremiah");
    reveal_strlit("Lamentations");
    reveal_strlit("Ezekiel");
    reveal_strlit("Daniel");
    reveal_strlit("Hosea");
    reveal_strlit("Joel");
    reveal_strlit("Amos");
    reveal_strlit("Obadiah");
    reveal_strlit("Jonah");
    reveal_strlit("Micah");
    reveal_strlit("Nahum");
    reveal_strlit("Habakkuk");
    reveal_strlit("Zephaniah");
    reveal_strlit("Haggai");
    reveal_strlit("Zechariah");
    reveal_strlit("Malachi");
    reveal_strlit("Matthew");
    reveal_strlit("Mark");
    reveal_strlit("Luke");
    reveal_strlit("John");
    reveal_strlit("Acts");
    reveal_strlit("Romans");
    reveal_strlit("1 Corinthians");
    reveal_strlit("2 Corinthians");
    reveal_strlit("Galatians");
    reveal_strlit("Ephesians");
    reveal_strlit("Philippians");
    reveal_strlit("Colossians");
    reveal_strlit("1 Thessalonians");
    reveal_strlit("2 Thessalonians");
    reveal_strlit("1 Timothy");
    reveal_strlit("2 Timothy");
    reveal_strlit("Titus");
    reveal_strlit("Philemon");
    reveal_strlit("Hebrews");
    reveal_strlit("James");
    reveal_strlit("1 Peter");
    reveal_strlit("2 Peter");
    reveal_strlit("1 John");
    reveal_strlit("2 John");
    reveal_strlit("3 John");
    reveal_strlit("Jude");
    reveal_strlit("Revelation");
    assert("Colossians"@[0] != "Revelation"@[0]);
    assert(c[65] == "Revelation"@);
    assert(
        c[0] != "Revelation"@ && c[1] != "Revelation"@ && c[2] != "Revelation"@
        && c[3] != "Revelation"@ && c[4] != "Revelation"@ && c[5] != "Revelation"@
        && c[6] != "Revelation"@ && c[7] != "Revelation"@ && c[8] != "Revelation"@
        && c[9] != "Revelation"@ && c[10] != "Revelation"@ && c[11] != "Revelation"@
        && c[12] != "Revelation"@ && c[13] != "Revelation"@ && c[14] != "Revelation"@
        && c[15] != "Revelation"@ && c[16] != "Revelation"@ && c[17] != "Revelation"@
        && c[18] != "Revelation"@ && c[19] != "Revelation"@ && c[20] != "Revelation"@
        && c[21] != "Revelation"@ && c[22] != "Revelation"@ && c[23] != "Revelation"@
        && c[24] != "Revelation"@ && c[25] != "Revelation"@ && c[26] != "Revelation"@
        && c[27] != "Revelation"@ && c[28] != "Revelation"@ && c[29] != "Revelation"@
        && c[30] != "Revelation"@ && c[31] != "Revelation"@ && c[32] != "Revelation"@
        && c[33] != "Revelation"@ && c[34] != "Revelation"@ && c[35] != "Revelation"@
        && c[36] != "Revelation"@ && c[37] != "Revelation"@ && c[38] != "Revelation"@
        && c[39] != "Revelation"@ && c[40] != "Revelation"@ && c[41] != "Revelation"@
        && c[42] != "Revelation"@ && c[43] != "Revelation"@ && c[44] != "Revelation"@
        && c[45] != "Revelation"@ && c[46] != "Revelation"@ && c[47] != "Revelation"@
        && c[48] != "Revelation"@ && c[49] != "Revelation"@ && c[50] != "Revelation"@
        && c[51] != "Revelation"@ && c[52] != "Revelation"@ && c[53] != "Revelation"@
        && c[54] != "Revelation"@ && c[55] != "Revelation"@ && c[56] != "Revelation"@
        && c[57] != "Revelation"@ && c[58] != "Revelation"@ && c[59] != "Revelation"@
        && c[60] != "Revelation"@ && c[61] != "Revelation"@ && c[62] != "Revelation"@
        && c[63] != "Revelation"@ && c[64] != "Revelation"@
    );
    lemma_position_from(c, "Revelation"@, 0, 65);
}

/// Every book of the canon has its place in it as its key: Genesis 0,
/// Exodus 1, ..., Matthew 39, Mark 40, Luke 41, John 42, Acts 43, ...,
/// Revelation 65.
pub proof fn law_canonical_keys()
    ensures
        canonical_key("Genesis"@) == 0,
        canonical_key("Exodus"@) == 1,
        canonical_key("Leviticus"@) == 2,
        canonical_key("Numbers"@) == 3,
        canonical_key("Deuteronomy"@) == 4,
        canonical_key("Joshua"@) == 5,
        canonical_key("Judges"@) == 6,
        canonical_key("Ruth"@) == 7,
        canonical_key("1 Samuel"@) == 8,
        canonical_key("2 Samuel"@) == 9,
        canonical_key("1 Kings"@) == 10,
        canonical_key("2 Kings"@) == 11,
        canonical_key("1 Chronicles"@) == 12,
        canonical_key("2 Chronicles"@) == 13,
        canonical_key("Ezra"@) == 14,
        canonical_key("Nehemiah"@) == 15,
        canonical_key("Esther"@) == 16,
        canonical_key("Job"@) == 17,
        canonical_key("Psalms"@) == 18,
        canonical_key("Proverbs"@) == 19,
        canonical_key("Ecclesiastes"@) == 20,
        canonical_key("Song of Solomon"@) == 21,
        canonical_key("Isaiah"@) == 22,
        canonical_key("Jeremiah"@) == 23,
        canonical_key("Lamentations"@) == 24,
        canonical_key("Ezekiel"@) == 25,
        canonical_key("Daniel"@) == 26,
        canonical_key("Hosea"@) == 27,
        canonical_key("Joel"@) == 28,
        canonical_key("Amos"@) == 29,
        canonical_key("Obadiah"@) == 30,
        canonical_key("Jonah"@) == 31,
        canonical_key("Micah"@) == 32,
        canonical_key("Nahum"@) == 33,
        canonical_key("Habakkuk"@) == 34,
        canonical_key("Zephaniah"@) == 35,
        canonical_key("Haggai"@) == 36,
        canonical_key("Zechariah"@) == 37,
        canonical_key("Malachi"@) == 38,
        canonical_key("Matthew"@) == 39,
        canonical_key("Mark"@) == 40,
        canonical_key("Luke"@) == 41,
        canonical_key("John"@) == 42,
        canonical_key("Acts"@) == 43,
        canonical_key("Romans"@) == 44,
        canonical_key("1 Corinthians"@) == 45,
        canonical_key("2 Corinthians"@) == 46,
        canonical_key("Galatians"@) == 47,
        canonical_key("Ephesians"@) == 48,
        canonical_key("Philippians"@) == 49,
        canonical_key("Colossians"@) == 50,
        canonical_key("1 Thessalonians"@) == 51,
        canonical_key("2 Thessalonians"@) == 52,
        canonical_key("1 Timothy"@) == 53,
        canonical_key("2 Timothy"@) == 54,
        canonical_key("Titus"@) == 55,
        canonical_key("Philemon"@) == 56,
        canonical_key("Hebrews"@) == 57,
        canonical_key("James"@) == 58,
        canonical_key("1 Peter"@) == 59,
        canonical_key("2 Peter"@) == 60,
        canonical_key("1 John"@) == 61,
        canonical_key("2 John"@) == 62,
        canonical_key("3 John"@) == 63,
        canonical_key("Jude"@) == 64,
        canonical_key("Revelation"@) == 65,
{
    key_of_genesis();
    key_of_exodus();
    key_of_leviticus();
    key_of_numbers();
    key_of_deuteronomy();
    key_of_joshua();
    key_of_judges();
    key_of_ruth();
    key_of_1_samuel();
    key_of_2_samuel();
    key_of_1_kings();
    key_of_2_kings();
    key_of_1_chronicles();
    key_of_2_chronicles();
    key_of_ezra();
    key_of_nehemiah();
    key_of_esther();
    key_of_job();
    key_of_psalms();
    key_of_proverbs();
    key_of_ecclesiastes();
    key_of_song_of_solomon();
    key_of_isaiah();
    key_of_jeremiah();
    key_of_lamentations();
    key_of_ezekiel();
    key_of_daniel();
    key_of_hosea();
    key_of_joel();
    key_of_amos();
    key_of_obadiah();
    key_of_jonah();
    key_of_micah();
    key_of_nahum();
    key_of_habakkuk();
    key_of_zephaniah();
    key_of_haggai();
    key_of_zechariah();
    key_of_malachi();
    key_of_matthew();
    key_of_mark();
    key_of_luke();
    key_of_john();
    key_of_acts();
    key_of_romans();
    key_of_1_corinthians();
    key_of_2_corinthians();
    key_of_galatians();
    key_of_ephesians();
    key_of_philippians();
    key_of_colossians();
    key_of_1_thessalonians();
    key_of_2_thessalonians();
    key_of_1_timothy();
    key_of_2_timothy();
    key_of_titus();
    key_of_philemon();
    key_of_hebrews();
    key_of_james();
    key_of_1_peter();
    key_of_2_peter();
    key_of_1_john();
    key_of_2_john();
    key_of_3_john();
    key_of_jude();
    key_of_revelation();
}

} // verus!
