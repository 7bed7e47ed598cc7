//! Canonical form of a shortcut string.
//!
//! Two spellings of one shortcut must compare equal: `Ctrl+Shift+A` and
//! `control+shift+a`, `Cmd+K` and `Super+K`. The canonical form is the
//! lower-case text in which `ctrl` is written `control`, and `cmd`, `meta`
//! and `win` are written `super`.

use vstd::prelude::*;
use crate::text::{
    chars_of, clash_at, clashes, free_of, lemma_replaced_free, lemma_replaced_identity,
    never_overlaps, replace_all, replaced, string_of,
};

verus! {

/// The lower-case form that `str::to_lowercase` gives for a text.
pub uninterp spec fn lowercase_of(s: Seq<char>) -> Seq<char>;

/// `str::to_lowercase` of std: the Unicode lower-case form of `s` as a new
/// string. The contract only names that form; nothing is claimed about what
/// it holds.
#[verifier::external_body]
fn to_lowercase(s: &str) -> (out: String)
    ensures
        out@ == lowercase_of(s@),
{
    s.to_lowercase()
}

/// `s` with the modifier synonyms folded to one spelling each: `ctrl`
/// becomes `control`, then `cmd`, `meta` and `win` become `super`, in that
/// order and each over the whole text.
pub open spec fn folded(s: Seq<char>) -> Seq<char> {
    replaced(
        replaced(replaced(replaced(s, "ctrl"@, "control"@), "cmd"@, "super"@), "meta"@, "super"@),
        "win"@,
        "super"@,
    )
}

/// The canonical form of a shortcut string: its lower-case form with the
/// modifier synonyms folded.
pub open spec fn normalized(s: Seq<char>) -> Seq<char> {
    folded(lowercase_of(s))
}

/// Folds the modifier synonyms of a text. Only the lower-case spellings
/// are folded; the case of the text is left as it is.
pub fn fold_synonyms(s: &str) -> (out: String)
    ensures
        out@ == folded(s@),
{
    let control = chars_of("control");
    let sup = chars_of("super");
    let text = chars_of(s);
    let text = replace_all(&text, &chars_of("ctrl"), &control);
    let text = replace_all(&text, &chars_of("cmd"), &sup);
    let text = replace_all(&text, &chars_of("meta"), &sup);
    let text = replace_all(&text, &chars_of("win"), &sup);
    string_of(&text)
}

/// Normalizes a shortcut string for comparison: lower case, `ctrl` written
/// `control`, and `cmd`, `meta` and `win` written `super`.
pub fn normalize_shortcut_string(s: &str) -> (out: String)
    ensures
        out@ == normalized(s@),
{
    let lower = to_lowercase(s);
    fold_synonyms(lower.as_str())
}

/// Where the first character of each text stands nowhere in the other, the
/// two never overlap.
proof fn lemma_foreign_edges_never_overlap(pat: Seq<char>, with: Seq<char>)
    requires
        pat.len() > 0,
        with.len() > 0,
        forall|k: int| 0 <= k < pat.len() ==> pat[k] != with[0],
        forall|j: int| 0 <= j < with.len() ==> with[j] != pat[0],
    ensures
        never_overlaps(pat, with),
{
    assert forall|d: int| -pat.len() < d < with.len() implies #[trigger] clashes(pat, with, d) by {
        if d <= 0 {
            assert(clash_at(pat, with, d, 0));
        } else {
            assert(clash_at(pat, with, d, d));
        }
    }
}

/// An occurrence of an abbreviated modifier never touches an inserted
/// `super`, and an occurrence of `ctrl` never touches an inserted `control`.
proof fn lemma_synonyms_never_overlap()
    ensures
        never_overlaps("ctrl"@, "control"@),
        never_overlaps("ctrl"@, "super"@),
        never_overlaps("cmd"@, "super"@),
        never_overlaps("meta"@, "super"@),
        never_overlaps("win"@, "super"@),
{
    reveal_strlit("ctrl");
    reveal_strlit("cmd");
    reveal_strlit("meta");
    reveal_strlit("win");
    reveal_strlit("control");
    reveal_strlit("super");
    lemma_foreign_edges_never_overlap("ctrl"@, "super"@);
    lemma_foreign_edges_never_overlap("cmd"@, "super"@);
    lemma_foreign_edges_never_overlap("meta"@, "super"@);
    lemma_foreign_edges_never_overlap("win"@, "super"@);
    // `ctrl` and `control` open with the same letter and part at the second.
    assert forall|d: int| -"ctrl"@.len() < d < "control"@.len() implies #[trigger] clashes(
        "ctrl"@,
        "control"@,
        d,
    ) by {
        if d < 0 {
            assert(clash_at("ctrl"@, "control"@, d, 0));
        } else if d == 0 {
            assert(clash_at("ctrl"@, "control"@, d, 1));
        } else {
            assert(clash_at("ctrl"@, "control"@, d, d));
        }
    }
}

/// A folded text holds none of the abbreviated modifiers: `ctrl`, `cmd`,
/// `meta` and `win` stand nowhere in it.
pub proof fn lemma_folded_has_no_synonym(s: Seq<char>)
    ensures
        free_of(folded(s), "ctrl"@),
        free_of(folded(s), "cmd"@),
        free_of(folded(s), "meta"@),
        free_of(folded(s), "win"@),
{
    lemma_synonyms_never_overlap();
    reveal_strlit("ctrl");
    reveal_strlit("cmd");
    reveal_strlit("meta");
    reveal_strlit("win");
    reveal_strlit("control");
    reveal_strlit("super");
    let s1 = replaced(s, "ctrl"@, "control"@);
    let s2 = replaced(s1, "cmd"@, "super"@);
    let s3 = replaced(s2, "meta"@, "super"@);
    lemma_replaced_free(s, "ctrl"@, "control"@, "ctrl"@);
    lemma_replaced_free(s1, "cmd"@, "super"@, "ctrl"@);
    lemma_replaced_free(s2, "meta"@, "super"@, "ctrl"@);
    lemma_replaced_free(s3, "win"@, "super"@, "ctrl"@);
    lemma_replaced_free(s1, "cmd"@, "super"@, "cmd"@);
    lemma_replaced_free(s2, "meta"@, "super"@, "cmd"@);
    lemma_replaced_free(s3, "win"@, "super"@, "cmd"@);
    lemma_replaced_free(s2, "meta"@, "super"@, "meta"@);
    lemma_replaced_free(s3, "win"@, "super"@, "meta"@);
    lemma_replaced_free(s3, "win"@, "super"@, "win"@);
}

/// A text that holds none of the abbreviated modifiers is left as it is.
pub proof fn lemma_fold_leaves_canonical(s: Seq<char>)
    requires
        free_of(s, "ctrl"@),
        free_of(s, "cmd"@),
        free_of(s, "meta"@),
        free_of(s, "win"@),
    ensures
        folded(s) == s,
{
    lemma_replaced_identity(s, "ctrl"@, "control"@);
    lemma_replaced_identity(s, "cmd"@, "super"@);
    lemma_replaced_identity(s, "meta"@, "super"@);
    lemma_replaced_identity(s, "win"@, "super"@);
}

/// Folding is idempotent: folding a folded text changes nothing.
pub proof fn lemma_fold_idempotent(s: Seq<char>)
    ensures
        folded(folded(s)) == folded(s),
{
    lemma_folded_has_no_synonym(s);
    lemma_fold_leaves_canonical(folded(s));
}

/// Normalizing a canonical form gives it back, for every text whose
/// canonical form is its own lower-case form.
pub proof fn lemma_normalize_idempotent(s: Seq<char>)
    ensures
        lowercase_of(normalized(s)) == normalized(s) ==> normalized(normalized(s)) == normalized(s),
{
    lemma_fold_idempotent(lowercase_of(s));
}

} // verus!
