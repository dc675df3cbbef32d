//! Normalising a digest text: what it leaves alone, and when doing it twice
//! is doing it once.
use crate::queries::normalised;
use crate::text::{
    contains, lemma_replace_no_longer, lemma_replace_shortens, lemma_replace_without_match,
    occurs_at, replace_all,
};
use vstd::prelude::*;

verus! {

/// A digest text that holds neither `?,?,?,...` nor `?-?-?` is left as it
/// is.
pub proof fn lemma_normalised_without_placeholders(text: Seq<char>)
    requires
        !contains(text, "?,?,?,..."@),
        !contains(text, "?-?-?"@),
    ensures
        normalised(text) == text,
{
    lemma_replace_without_match(text, "?,?,?,..."@, "?,?,?"@, 0);
    lemma_replace_without_match(text, "?-?-?"@, "?"@, 0);
    assert(text.skip(0) =~= text);
}

/// Normalising never lengthens a digest text.
pub proof fn lemma_normalised_no_longer(text: Seq<char>)
    ensures
        normalised(text).len() <= text.len(),
{
    reveal_strlit("?,?,?,...");
    reveal_strlit("?,?,?");
    reveal_strlit("?-?-?");
    reveal_strlit("?");
    lemma_replace_no_longer(text, "?,?,?,..."@, "?,?,?"@, 0);
    lemma_replace_no_longer(replace_all(text, "?,?,?,..."@, "?,?,?"@), "?-?-?"@, "?"@, 0);
}

/// Normalising a normalised digest text changes nothing, exactly where the
/// normalised text holds neither `?,?,?,...` nor `?-?-?` any more. (It does
/// hold one after `?,?,?,...,...`, for instance, which becomes `?,?,?,...`.)
pub proof fn lemma_normalised_idempotent(text: Seq<char>)
    ensures
        normalised(normalised(text)) == normalised(text) <==> !contains(
            normalised(text),
            "?,?,?,..."@,
        ) && !contains(normalised(text), "?-?-?"@),
{
    let once = normalised(text);
    reveal_strlit("?,?,?,...");
    reveal_strlit("?,?,?");
    reveal_strlit("?-?-?");
    reveal_strlit("?");
    if !contains(once, "?,?,?,..."@) && !contains(once, "?-?-?"@) {
        lemma_normalised_without_placeholders(once);
    } else if contains(once, "?,?,?,..."@) {
        let at = choose|at: int| occurs_at(once, "?,?,?,..."@, at);
        lemma_replace_shortens(once, "?,?,?,..."@, "?,?,?"@, 0, at);
        lemma_replace_no_longer(replace_all(once, "?,?,?,..."@, "?,?,?"@), "?-?-?"@, "?"@, 0);
    } else {
        lemma_replace_without_match(once, "?,?,?,..."@, "?,?,?"@, 0);
        assert(once.skip(0) =~= once);
        let at = choose|at: int| occurs_at(once, "?-?-?"@, at);
        lemma_replace_shortens(once, "?-?-?"@, "?"@, 0, at);
    }
}

} // verus!
