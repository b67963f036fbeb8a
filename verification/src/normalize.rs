//! Query normalization: case folding and diacritic folding.
//!
//! Storage keeps a normalized copy of every headword, folded with the same
//! table, so comparisons between a normalized query and a stored key are
//! symmetric. Folding is pure and total, and idempotent: characters it
//! produces are plain lowercase letters that fold to themselves.

use vstd::prelude::*;

verus! {

/// Canonical form of one character: ASCII uppercase letters are lowered and
/// accented letters are folded to their lowercase base letter; every other
/// character is left unchanged.
pub open spec fn fold_char(c: char) -> char {
    if c == 'A' { 'a' } else if c == 'B' { 'b' } else if c == 'C' { 'c' }
    else if c == 'D' { 'd' } else if c == 'E' { 'e' } else if c == 'F' { 'f' }
    else if c == 'G' { 'g' } else if c == 'H' { 'h' } else if c == 'I' { 'i' }
    else if c == 'J' { 'j' } else if c == 'K' { 'k' } else if c == 'L' { 'l' }
    else if c == 'M' { 'm' } else if c == 'N' { 'n' } else if c == 'O' { 'o' }
    else if c == 'P' { 'p' } else if c == 'Q' { 'q' } else if c == 'R' { 'r' }
    else if c == 'S' { 's' } else if c == 'T' { 't' } else if c == 'U' { 'u' }
    else if c == 'V' { 'v' } else if c == 'W' { 'w' } else if c == 'X' { 'x' }
    else if c == 'Y' { 'y' } else if c == 'Z' { 'z' }
    else if c == 'ă' || c == 'â' || c == 'ã' || c == 'à' || c == 'á' || c == 'ä' || c == 'å'
        || c == 'Ă' || c == 'Â' || c == 'Ã' || c == 'À' || c == 'Á' || c == 'Ä' || c == 'Å' { 'a' }
    else if c == 'é' || c == 'è' || c == 'ê' || c == 'ë'
        || c == 'É' || c == 'È' || c == 'Ê' || c == 'Ë' { 'e' }
    else if c == 'î' || c == 'ì' || c == 'í' || c == 'ï'
        || c == 'Î' || c == 'Ì' || c == 'Í' || c == 'Ï' { 'i' }
    else if c == 'ô' || c == 'ò' || c == 'ó' || c == 'ö' || c == 'õ'
        || c == 'Ô' || c == 'Ò' || c == 'Ó' || c == 'Ö' || c == 'Õ' { 'o' }
    else if c == 'ù' || c == 'ú' || c == 'û' || c == 'ü'
        || c == 'Ù' || c == 'Ú' || c == 'Û' || c == 'Ü' { 'u' }
    else if c == 'ç' || c == 'Ç' { 'c' }
    else if c == 'ñ' || c == 'Ñ' { 'n' }
    else if c == 'ș' || c == 'Ș' || c == 'ş' || c == 'Ş' { 's' }
    else if c == 'ț' || c == 'Ț' || c == 'ţ' || c == 'Ţ' { 't' }
    else { c }
}

/// Canonical search key of a string: every character folded in place.
pub open spec fn norm_seq(s: Seq<char>) -> Seq<char> {
    s.map_values(|c: char| fold_char(c))
}

/// Folding one character is idempotent: everything it produces folds to
/// itself.
pub proof fn lemma_fold_char_idempotent(c: char)
    ensures
        fold_char(fold_char(c)) == fold_char(c),
{
}

/// The normalizer is idempotent: normalizing an already normalized string
/// returns it unchanged.
pub proof fn lemma_normalize_idempotent(s: Seq<char>)
    ensures
        norm_seq(norm_seq(s)) == norm_seq(s),
{
    assert forall|i: int| 0 <= i < s.len() implies #[trigger] norm_seq(norm_seq(s))[i]
        == norm_seq(s)[i] by {
        lemma_fold_char_idempotent(s[i]);
    }
    assert(norm_seq(norm_seq(s)) =~= norm_seq(s));
}

/// Executable folding of one character, matching [`fold_char`].
fn fold_char_exec(c: char) -> (r: char)
    ensures
        r == fold_char(c),
{
    if c == 'A' { 'a' } else if c == 'B' { 'b' } else if c == 'C' { 'c' }
    else if c == 'D' { 'd' } else if c == 'E' { 'e' } else if c == 'F' { 'f' }
    else if c == 'G' { 'g' } else if c == 'H' { 'h' } else if c == 'I' { 'i' }
    else if c == 'J' { 'j' } else if c == 'K' { 'k' } else if c == 'L' { 'l' }
    else if c == 'M' { 'm' } else if c == 'N' { 'n' } else if c == 'O' { 'o' }
    else if c == 'P' { 'p' } else if c == 'Q' { 'q' } else if c == 'R' { 'r' }
    else if c == 'S' { 's' } else if c == 'T' { 't' } else if c == 'U' { 'u' }
    else if c == 'V' { 'v' } else if c == 'W' { 'w' } else if c == 'X' { 'x' }
    else if c == 'Y' { 'y' } else if c == 'Z' { 'z' }
    else if c == 'ă' || c == 'â' || c == 'ã' || c == 'à' || c == 'á' || c == 'ä' || c == 'å'
        || c == 'Ă' || c == 'Â' || c == 'Ã' || c == 'À' || c == 'Á' || c == 'Ä' || c == 'Å' { 'a' }
    else if c == 'é' || c == 'è' || c == 'ê' || c == 'ë'
        || c == 'É' || c == 'È' || c == 'Ê' || c == 'Ë' { 'e' }
    else if c == 'î' || c == 'ì' || c == 'í' || c == 'ï'
        || c == 'Î' || c == 'Ì' || c == 'Í' || c == 'Ï' { 'i' }
    else if c == 'ô' || c == 'ò' || c == 'ó' || c == 'ö' || c == 'õ'
        || c == 'Ô' || c == 'Ò' || c == 'Ó' || c == 'Ö' || c == 'Õ' { 'o' }
    else if c == 'ù' || c == 'ú' || c == 'û' || c == 'ü'
        || c == 'Ù' || c == 'Ú' || c == 'Û' || c == 'Ü' { 'u' }
    else if c == 'ç' || c == 'Ç' { 'c' }
    else if c == 'ñ' || c == 'Ñ' { 'n' }
    else if c == 'ș' || c == 'Ș' || c == 'ş' || c == 'Ş' { 's' }
    else if c == 'ț' || c == 'Ț' || c == 'ţ' || c == 'Ţ' { 't' }
    else { c }
}

/// Relies on `String::push`: appends exactly the given character at the end.
#[verifier::external_body]
fn push_char(s: &mut String, c: char)
    ensures
        final(s)@ == old(s)@.push(c),
{
    s.push(c);
}

/// Canonical search key of a raw query: lower-cased and diacritic-folded,
/// character by character.
pub fn normalize(s: &str) -> (r: String)
    ensures
        r@ == norm_seq(s@),
{
    let n = s.unicode_len();
    let mut out = String::new();
    let mut i: usize = 0;
    while i < n
        invariant
            n == s@.len(),
            i <= n,
            out@ == norm_seq(s@.take(i as int)),
        decreases n - i,
    {
        let c = s.get_char(i);
        let f = fold_char_exec(c);
        push_char(&mut out, f);
        proof {
            assert(s@.take(i + 1) =~= s@.take(i as int).push(s@[i as int]));
            assert(norm_seq(s@.take(i + 1)) =~= norm_seq(s@.take(i as int)).push(
                fold_char(s@[i as int]),
            ));
        }
        i = i + 1;
    }
    proof {
        assert(s@.take(n as int) =~= s@);
    }
    out
}

} // verus!
