use vstd::prelude::*;

use crate::text::opt_view;

verus! {

#[verifier::external_type_specification]
#[verifier::external_body]
pub struct ExRegexError(regex::Error);

/// The pattern of a purchase-order number: optional capital letters, `PO`, digits.
pub const PO_NUMBER_PATTERN: &'static str = r"[A-Z]*PO\d+";

/// Whether `regex::Regex::new` accepts `pattern`.
pub uninterp spec fn regex_compiles(pattern: Seq<char>) -> bool;

/// The text of the first match that `regex::Regex::find` reports for `pattern` in `haystack`.
pub uninterp spec fn regex_first_match(pattern: Seq<char>, haystack: Seq<char>) -> Option<Seq<char>>;

/// `needle` occurs as a contiguous run of characters in `haystack`.
pub open spec fn occurs_in(needle: Seq<char>, haystack: Seq<char>) -> bool {
    exists|i: int|
        0 <= i && i + needle.len() <= haystack.len() && #[trigger] haystack.subrange(
            i,
            i + needle.len(),
        ) == needle
}

/// A text in the shape of a PO number: capital letters `A`-`Z`, then `PO`,
/// then at least one more character (a digit, for a match of the pattern).
pub open spec fn po_shaped(m: Seq<char>) -> bool {
    exists|k: int|
        0 <= k && k + 3 <= m.len() && (forall|i: int| 0 <= i < k ==> 'A' <= #[trigger] m[i] <= 'Z')
            && #[trigger] m[k] == 'P' && m[k + 1] == 'O'
}

/// `PO` followed by an ASCII digit occurs somewhere in `t`.
pub open spec fn has_po_digits(t: Seq<char>) -> bool {
    exists|i: int| 0 <= i && i + 3 <= t.len() && #[trigger] t[i] == 'P' && t[i + 1] == 'O' && '0' <= t[i + 2] <= '9'
}

/// From position `j` of `t` on: capital letters `A`-`Z` up to `k`, then `PO`
/// and an ASCII digit, so that a match of the PO-number pattern starts at `j`.
pub open spec fn po_digits_from(t: Seq<char>, j: int, k: int) -> bool {
    &&& 0 <= j <= k
    &&& k + 3 <= t.len()
    &&& forall|l: int| j <= l < k ==> 'A' <= #[trigger] t[l] <= 'Z'
    &&& t[k] == 'P'
    &&& t[k + 1] == 'O'
    &&& '0' <= t[k + 2] <= '9'
}

/// `m` stands in `t` at a place where it is the first whole match of the
/// PO-number pattern: no match of the pattern starts earlier (in particular
/// the character before it, if any, is no capital letter `A`-`Z`, which the
/// pattern would have taken in), and the character after it (if any) is no
/// ASCII digit, which `\d+` would have taken in.
pub open spec fn is_whole_po_match(m: Seq<char>, t: Seq<char>) -> bool {
    exists|i: int|
        {
            &&& 0 <= i && i + m.len() <= t.len()
            &&& #[trigger] t.subrange(i, i + m.len()) == m
            &&& i == 0 || !('A' <= t[i - 1] <= 'Z')
            &&& i + m.len() == t.len() || !('0' <= t[i + m.len()] <= '9')
            &&& forall|j: int, k: int| #[trigger] po_digits_from(t, j, k) ==> i <= j
        }
}

/// Compiles `pattern` with `regex::Regex::new` and returns the text of the first
/// match of `regex::Regex::find` in `haystack`.
/// Trusted: the result is whatever the regex crate computes, named by
/// `regex_compiles` and `regex_first_match`. Stated beyond the names is what the
/// crate's documentation gives: a match is a substring of the haystack; and, for
/// the PO-number pattern, a match has its shape, no match starts before it
/// (leftmost-first search), it ends where the digits do (greedy repetition),
/// and a haystack holding `PO` and an ASCII digit (which `\d` includes) has a
/// match. The rest is left to the name, as `\d` is Unicode-aware: it also
/// takes in digits of other scripts, which are not listed here.
#[verifier::external_body]
fn regex_find(pattern: &str, haystack: &str) -> (r: Result<Option<String>, regex::Error>)
    ensures
        r is Ok <==> regex_compiles(pattern@),
        r matches Ok(found) ==> opt_view(found) == regex_first_match(pattern@, haystack@),
        r matches Ok(Some(m)) ==> occurs_in(m@, haystack@),
        pattern@ == PO_NUMBER_PATTERN@ ==> (r matches Ok(Some(m)) ==> po_shaped(m@)),
        pattern@ == PO_NUMBER_PATTERN@ ==> (r matches Ok(Some(m)) ==> is_whole_po_match(
            m@,
            haystack@,
        )),
        (pattern@ == PO_NUMBER_PATTERN@ && has_po_digits(haystack@)) ==> (r matches Ok(found)
            ==> found is Some),
{
    match regex::Regex::new(pattern) {
        Ok(re) => Ok(re.find(haystack).map(|m| m.as_str().to_string())),
        Err(e) => Err(e),
    }
}

/// The PO number that `extract_po_number` finds in `text`.
pub open spec fn po_number_in(text: Seq<char>) -> Option<Seq<char>> {
    if regex_compiles(PO_NUMBER_PATTERN@) {
        regex_first_match(PO_NUMBER_PATTERN@, text)
    } else {
        None
    }
}

/// The PO number kept from a search with the regex crate: the match when the
/// pattern compiled, nothing when it did not.
pub fn po_number_from_search(search: Result<Option<String>, regex::Error>) -> (res: Option<String>)
    ensures
        match search {
            Ok(found) => res == found,
            Err(_) => res is None,
        },
{
    match search {
        Ok(found) => found,
        Err(_) => None,
    }
}

/// Extract the first PO-number match (`[A-Z]*PO\d+`) from arbitrary text.
pub fn extract_po_number(text: &str) -> (res: Option<String>)
    ensures
        opt_view(res) == po_number_in(text@),
        res matches Some(m) ==> occurs_in(m@, text@) && po_shaped(m@),
        res matches Some(m) ==> is_whole_po_match(m@, text@),
        regex_compiles(PO_NUMBER_PATTERN@) && has_po_digits(text@) ==> res is Some,
{
    po_number_from_search(regex_find(PO_NUMBER_PATTERN, text))
}

/// The identifier kept for a decoded barcode value.
pub open spec fn identifier_for(raw: Seq<char>) -> Seq<char> {
    match po_number_in(raw) {
        Some(po) => po,
        None => raw,
    }
}

/// The identifier for a decoded barcode, given the PO number found in it (if
/// any): that PO number, otherwise the raw barcode text.
pub fn identifier_from(raw: String, po_number: Option<String>) -> (id: String)
    ensures
        id@ == (match po_number {
            Some(po) => po@,
            None => raw@,
        }),
{
    match po_number {
        Some(po) => po,
        None => raw,
    }
}

/// The identifier for a decoded barcode: the PO number inside it if there is
/// one, otherwise the raw barcode text.
pub fn best_identifier(raw: String) -> (id: String)
    ensures
        id@ == identifier_for(raw@),
        occurs_in(id@, raw@),
        po_number_in(raw@) is Some ==> po_shaped(id@),
        regex_compiles(PO_NUMBER_PATTERN@) && has_po_digits(raw@) ==> po_shaped(id@),
{
    let po = extract_po_number(raw.as_str());
    proof {
        assert(raw@.subrange(0int, 0int + raw@.len()) == raw@);
        assert(occurs_in(raw@, raw@));
    }
    identifier_from(raw, po)
}

} // verus!
