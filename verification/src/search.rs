//! Filtering the rows of a translation by a global search query: the query
//! is tried as a case-insensitive regular expression, and when it does not
//! compile, as a plain case-insensitive substring.

use vstd::prelude::*;
use crate::model::SearchResult;
use crate::text::{contains_seq, lowercase, str_contains, to_lowercase};

verus! {

#[verifier::external_type_specification]
#[verifier::external_body]
pub struct ExRegex(regex::Regex);

/// Whether `regex::RegexBuilder::new(pattern).case_insensitive(true).build()`
/// succeeds for this pattern.
pub uninterp spec fn ci_pattern_compiles(pattern: Seq<char>) -> bool;

/// Whether the case-insensitive regular expression compiled from `pattern`
/// matches somewhere in `text` (`regex::Regex::is_match`).
pub uninterp spec fn ci_pattern_matches(pattern: Seq<char>, text: Seq<char>) -> bool;

/// A case-insensitive regular expression together with the pattern it was
/// compiled from. Values are made only by [`compile_case_insensitive`], so
/// `re` is always the compilation of `pattern`.
pub(crate) struct CaseInsensitiveRegex {
    pattern: String,
    re: regex::Regex,
}

impl View for CaseInsensitiveRegex {
    type V = Seq<char>;

    closed spec fn view(&self) -> Seq<char> {
        self.pattern@
    }
}

/// Compiles `pattern` as a case-insensitive regular expression.
///
/// Trusted: calls `regex::RegexBuilder::new`, `case_insensitive(true)` and
/// `build`. The contract claims that the build succeeds exactly when
/// `ci_pattern_compiles(pattern)` holds (a name for that outcome, which
/// depends on the pattern alone), and that the value returned carries the
/// pattern it was compiled from.
#[verifier::external_body]
pub(crate) fn compile_case_insensitive(pattern: &str) -> (r: Option<CaseInsensitiveRegex>)
    ensures
        r is Some <==> ci_pattern_compiles(pattern@),
        r matches Some(re) ==> re@ == pattern@,
{
    match regex::RegexBuilder::new(pattern).case_insensitive(true).build() {
        Ok(re) => Some(CaseInsensitiveRegex { pattern: pattern.to_string(), re }),
        Err(_) => None,
    }
}

/// Whether the compiled expression matches somewhere in `text`.
///
/// Trusted: calls `regex::Regex::is_match`, whose answer depends on the
/// compiled pattern and the text alone; the contract names it
/// `ci_pattern_matches`.
#[verifier::external_body]
pub(crate) fn regex_is_match(re: &CaseInsensitiveRegex, text: &str) -> (b: bool)
    ensures
        b == ci_pattern_matches(re@, text@),
{
    re.re.is_match(text)
}

/// The keep decision for one row, from what the outside calls answered:
/// the regex answer when the query compiled, otherwise whether the
/// lowercased query occurs in the lowercased text.
pub open spec fn keep_decision(compiled: bool, regex_hit: bool, text_lower: Seq<char>, query_lower: Seq<char>) -> bool {
    if compiled {
        regex_hit
    } else {
        contains_seq(text_lower, query_lower)
    }
}

/// Decides whether a row is kept (see [`keep_decision`]); the lowercased
/// text is only looked at when the query did not compile.
pub fn decide_keep(compiled: bool, regex_hit: bool, text_lower: &str, query_lower: &str) -> (b: bool)
    ensures
        b == keep_decision(compiled, regex_hit, text_lower@, query_lower@),
{
    if compiled {
        regex_hit
    } else {
        str_contains(text_lower, query_lower)
    }
}

/// Whether a verse text is a hit for `query`: a regex match when the query
/// compiles case-insensitively, otherwise a substring test on the
/// lowercased text and query.
pub open spec fn search_keeps(query: Seq<char>, text: Seq<char>) -> bool {
    keep_decision(ci_pattern_compiles(query), ci_pattern_matches(query, text), lowercase(text), lowercase(query))
}

/// The rows whose text is a hit for `query`, in their original order.
pub open spec fn search_hits(query: Seq<char>, rows: Seq<SearchResult>) -> Seq<SearchResult> {
    rows.filter(|r: SearchResult| search_keeps(query, r.text@))
}

/// Keeps the rows of a translation that match a global search query.
pub fn filter_search_results(query: &str, rows: Vec<SearchResult>) -> (r: Vec<SearchResult>)
    ensures
        r@ == search_hits(query@, rows@),
{
    let re = compile_case_insensitive(query);
    let q_lower = to_lowercase(query);
    let ghost pred = |r: SearchResult| search_keeps(query@, r.text@);
    let mut results: Vec<SearchResult> = Vec::new();
    let mut rest = rows;
    let ghost all = rest@;
    // Walk the rows from the back, so that each one can be moved out.
    let mut taken: Vec<SearchResult> = Vec::new();
    while rest.len() > 0
        invariant
            all == rest@ + taken@.reverse(),
        decreases rest.len(),
    {
        let row = rest.pop().unwrap();
        taken.push(row);
        proof {
            assert(all =~= rest@ + taken@.reverse());
        }
    }
    assert(taken@.reverse() =~= all);
    let ghost order = taken@;
    while taken.len() > 0
        invariant
            order.reverse() == all,
            order.len() == all.len(),
            taken@.len() <= order.len(),
            taken@ == order.take(taken@.len() as int),
            results@ == all.take(all.len() - taken@.len()).filter(pred),
            re matches Some(x) ==> x@ == query@,
            re is Some <==> ci_pattern_compiles(query@),
            q_lower@ == lowercase(query@),
            pred == (|r: SearchResult| search_keeps(query@, r.text@)),
        decreases taken.len(),
    {
        let ghost m = taken@.len();
        let row = taken.pop().unwrap();
        let ghost n = all.len() - m;
        assert(row == order[m - 1]);
        assert(all[n] == order[order.len() - 1 - n]);
        assert(row == all[n]);
        assert(all.take(n + 1) =~= all.take(n).push(row));
        proof {
            all.take(n).lemma_filter_push(row, pred);
        }
        let keep = match &re {
            Some(x) => decide_keep(true, regex_is_match(x, row.text.as_str()), "", q_lower.as_str()),
            None => {
                let t_lower = to_lowercase(row.text.as_str());
                decide_keep(false, false, t_lower.as_str(), q_lower.as_str())
            },
        };
        assert(keep == pred(row));
        if keep {
            results.push(row);
        }
        assert(taken@ =~= order.take(taken@.len() as int));
    }
    assert(all.take(all.len() as int) =~= all);
    results
}

} // verus!
