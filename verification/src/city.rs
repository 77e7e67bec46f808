//! The saved city: what the board reads back from the text the user saved.
use vstd::prelude::*;

use crate::geo::opt_chars;
use crate::text::{
    is_white_space, lemma_trim_idempotent, lemma_trimmed_all_white, lemma_trimmed_characterized,
    lemma_trimmed_is_clean, trim_white_space, trimmed,
};

verus! {

/// The city that saved text names: the text without surrounding white space, or none when
/// nothing else is left.
pub open spec fn city_named_by(saved: Seq<char>) -> Option<Seq<char>> {
    let t = trimmed(saved);
    if t.len() == 0 {
        None
    } else {
        Some(t)
    }
}

/// The city that the saved text `saved` names.
pub fn saved_city(saved: &str) -> (r: Option<String>)
    ensures
        opt_chars(r) == city_named_by(saved@),
{
    let t = trim_white_space(saved);
    if t.as_str().is_empty() {
        None
    } else {
        Some(t)
    }
}

/// A city read back from saved text is never empty and neither starts nor ends with white
/// space.
pub proof fn lemma_saved_city_is_clean(saved: Seq<char>)
    ensures
        city_named_by(saved) matches Some(c) ==> c.len() > 0 && !is_white_space(c[0])
            && !is_white_space(c.last()),
{
    lemma_trimmed_is_clean(saved);
}

/// Saving the city that was read back and reading it again gives the same city.
pub proof fn lemma_saved_city_round_trip(saved: Seq<char>)
    ensures
        city_named_by(saved) matches Some(c) ==> city_named_by(c) == Some(c),
{
    lemma_trim_idempotent(saved);
}

/// Saved text names the city from its first to its last character that is not white space,
/// inner white space included: when everything before `i` and from `j` on is white space and
/// the characters at `i` and `j - 1` are not, the city is the piece from `i` up to `j`.
pub proof fn lemma_saved_city_is_trimmed_text(saved: Seq<char>, i: int, j: int)
    requires
        0 <= i < j <= saved.len(),
        forall|k: int| 0 <= k < i ==> is_white_space(#[trigger] saved[k]),
        forall|k: int| j <= k < saved.len() ==> is_white_space(#[trigger] saved[k]),
        !is_white_space(saved[i]),
        !is_white_space(saved[j - 1]),
    ensures
        city_named_by(saved) == Some(saved.subrange(i, j)),
{
    lemma_trimmed_characterized(saved, i, j);
}

/// Saved text made only of white space (or nothing) names no city.
pub proof fn lemma_blank_text_names_no_city(saved: Seq<char>)
    requires
        forall|k: int| 0 <= k < saved.len() ==> is_white_space(#[trigger] saved[k]),
    ensures
        city_named_by(saved) is None,
{
    lemma_trimmed_all_white(saved);
}

} // verus!
