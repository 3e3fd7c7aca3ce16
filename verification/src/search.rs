use vstd::prelude::*;

verus! {

/// The Unicode lowercase form of a sequence of characters, as
/// `str::to_lowercase` computes it. The mapping depends on the characters
/// alone, so it is left unspecified here and only named.
pub uninterp spec fn lower_of(s: Seq<char>) -> Seq<char>;

/// Relies on str::to_lowercase: the result is a function of the characters
/// alone, and an empty string stays empty.
#[verifier::external_body]
fn lowercase(s: &str) -> (r: String)
    ensures
        r@ == lower_of(s@),
        s@.len() == 0 ==> r@.len() == 0,
{
    s.to_lowercase()
}

/// `needle` occurs as a contiguous run of characters inside `hay`.
pub open spec fn contains_seq(hay: Seq<char>, needle: Seq<char>) -> bool {
    exists|i: int|
        0 <= i && i + needle.len() <= hay.len() && #[trigger] hay.subrange(i, i + needle.len())
            == needle
}

/// Relies on str::contains with a string pattern: true exactly when the
/// pattern occurs as a substring. (A valid UTF-8 byte match always falls on
/// character boundaries, so byte-level and character-level containment
/// coincide.)
#[verifier::external_body]
fn str_contains(hay: &str, needle: &str) -> (r: bool)
    ensures
        r == contains_seq(hay@, needle@),
{
    hay.contains(needle)
}

/// An entry name matches a search query when the query is empty or the
/// lowercased query occurs inside the lowercased name: a case-insensitive
/// substring match.
pub open spec fn spec_matches_search(name: Seq<char>, query: Seq<char>) -> bool {
    query.len() == 0 || contains_seq(lower_of(name), lower_of(query))
}

/// Case-insensitive substring match of `query` against `name`; an empty
/// query matches every name.
pub fn matches_search(name: &String, query: &String) -> (r: bool)
    ensures
        r == spec_matches_search(name@, query@),
{
    if query.as_str().is_empty() {
        return true;
    }
    let lname = lowercase(name.as_str());
    let lquery = lowercase(query.as_str());
    str_contains(lname.as_str(), lquery.as_str())
}

} // verus!
