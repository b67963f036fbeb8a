//! Query builder: turns a match tier and the optional user filters into a
//! structured filter expression for the search substrate.
//!
//! Filters are handed over as a small predicate tree, never as interpolated
//! text, so a user-influenced part-of-speech value is always a parameter of
//! the tree rather than a spliced-in string.

use vstd::prelude::*;
use crate::models::MatchType;

verus! {

/// Entry fields a base predicate can test against the query key.
#[derive(Clone, Copy, Debug, PartialEq, Eq, Structural)]
pub enum Field {
    Headword,
    TranslationRo,
    TranslationEn,
    TranslationFr,
}

/// Filter expression for one substrate lookup: a base match predicate on one
/// field, an exact part-of-speech constraint, or a boolean combination.
#[derive(Debug, PartialEq)]
pub enum Predicate {
    /// The tier's match predicate (exact, prefix, contains or fuzzy) applied
    /// to one field, compared with the normalized query key.
    Base(MatchType, Field),
    /// Exact equality of the part-of-speech field with the given value. The
    /// value travels as data and is bound as a query parameter downstream.
    PosEquals(String),
    Or(Box<Predicate>, Box<Predicate>),
    And(Box<Predicate>, Box<Predicate>),
}

/// Fully specified substrate lookup filter: the predicate tree plus the fixed
/// ordering directive. Results are always ordered by headword ascending;
/// scoring is applied later by the orchestrator, never by the substrate.
#[derive(Debug, PartialEq)]
pub struct FilterSpec {
    pub predicate: Predicate,
    pub order_by_headword_asc: bool,
}

/// Language codes the filter policy recognizes: the three translation
/// languages, the all-languages sentinel, and the headword language itself.
pub open spec fn spec_recognized_lang(l: Seq<char>) -> bool {
    ||| l == "ro"@
    ||| l == "en"@
    ||| l == "fr"@
    ||| l == "all"@
    ||| l == "rup"@
}

/// Predicate tree after language expansion, before the part-of-speech
/// constraint. With no language filter, with the headword language, or with
/// an unrecognized code, only the headword is matched; a translation language
/// adds an OR on its translation field with the same match kind; the
/// all-languages sentinel ORs across every translation field.
pub open spec fn spec_lang_predicate(mt: MatchType, lang: Option<Seq<char>>) -> Predicate {
    let base = Predicate::Base(mt, Field::Headword);
    match lang {
        Option::None => base,
        Option::Some(l) => {
            if l == "ro"@ {
                Predicate::Or(Box::new(base), Box::new(Predicate::Base(mt, Field::TranslationRo)))
            } else if l == "en"@ {
                Predicate::Or(Box::new(base), Box::new(Predicate::Base(mt, Field::TranslationEn)))
            } else if l == "fr"@ {
                Predicate::Or(Box::new(base), Box::new(Predicate::Base(mt, Field::TranslationFr)))
            } else if l == "all"@ {
                Predicate::Or(
                    Box::new(
                        Predicate::Or(
                            Box::new(
                                Predicate::Or(
                                    Box::new(base),
                                    Box::new(Predicate::Base(mt, Field::TranslationRo)),
                                ),
                            ),
                            Box::new(Predicate::Base(mt, Field::TranslationEn)),
                        ),
                    ),
                    Box::new(Predicate::Base(mt, Field::TranslationFr)),
                )
            } else {
                base
            }
        },
    }
}

/// View of an optional borrowed string as an optional character sequence.
pub open spec fn spec_opt_str_view(s: Option<&str>) -> Option<Seq<char>> {
    match s {
        Option::None => Option::None,
        Option::Some(t) => Option::Some(t@),
    }
}

/// What a well-built filter looks like: the fixed ordering directive, the
/// language-expanded base predicate of the tier, and, when a part-of-speech
/// filter is present, that predicate ANDed with an exact part-of-speech
/// constraint carrying the filter value.
pub open spec fn spec_filter_matches(
    f: FilterSpec,
    mt: MatchType,
    lang: Option<Seq<char>>,
    pos: Option<Seq<char>>,
) -> bool {
    &&& f.order_by_headword_asc
    &&& match pos {
        Option::None => f.predicate == spec_lang_predicate(mt, lang),
        Option::Some(pv) => f.predicate matches Predicate::And(l, q) && *l
            == spec_lang_predicate(mt, lang) && (*q matches Predicate::PosEquals(v) && v@ == pv),
    }
}

/// A language filter with an unrecognized code is a deliberate no-op: it
/// produces exactly the filter produced with no language filter at all.
pub proof fn lemma_unknown_lang_fallback(mt: MatchType, l: Seq<char>)
    requires
        !spec_recognized_lang(l),
    ensures
        spec_lang_predicate(mt, Some(l)) == spec_lang_predicate(mt, Option::None),
{
}

/// Filtering on the headword language itself adds nothing: the headword is
/// what every tier already matches.
pub proof fn lemma_headword_lang_fallback(mt: MatchType)
    ensures
        spec_lang_predicate(mt, Some("rup"@)) == spec_lang_predicate(mt, Option::None),
{
    reveal_strlit("rup");
    reveal_strlit("ro");
    reveal_strlit("en");
    reveal_strlit("fr");
    reveal_strlit("all");
    assert("rup"@.len() == 3);
    assert("ro"@.len() == 2);
    assert("rup"@ != "ro"@);
    assert("rup"@ != "en"@);
    assert("rup"@ != "fr"@);
    assert("rup"@[0] == 'r' && "all"@[0] == 'a');
    assert("rup"@ != "all"@);
}

/// Translation field of a recognized translation language; the headword
/// language and unknown codes have none.
pub open spec fn spec_translation_field(l: Seq<char>) -> Option<Field> {
    if l == "ro"@ {
        Option::Some(Field::TranslationRo)
    } else if l == "en"@ {
        Option::Some(Field::TranslationEn)
    } else if l == "fr"@ {
        Option::Some(Field::TranslationFr)
    } else {
        Option::None
    }
}

/// Builds the filter for a search within one language's translation field
/// alone: a substring match on that field, the part-of-speech constraint
/// ANDed on when present, ordered by headword. A language without a
/// translation field yields no filter — such a search has nothing to match
/// and returns no rows rather than an error.
pub fn build_translation_query(lang: &str, pos: Option<&str>) -> (r: Option<FilterSpec>)
    ensures
        r is Some <==> spec_translation_field(lang@) is Some,
        r matches Some(f) ==> {
            let base = Predicate::Base(MatchType::Contains, spec_translation_field(lang@)->Some_0);
            &&& f.order_by_headword_asc
            &&& match pos {
                Option::None => f.predicate == base,
                Option::Some(p) => f.predicate matches Predicate::And(l2, q) && *l2 == base && (
                *q matches Predicate::PosEquals(v) && v@ == p@),
            }
        },
{
    let field = if str_eq(lang, "ro") {
        Field::TranslationRo
    } else if str_eq(lang, "en") {
        Field::TranslationEn
    } else if str_eq(lang, "fr") {
        Field::TranslationFr
    } else {
        return None;
    };
    let base = Predicate::Base(MatchType::Contains, field);
    let predicate = match pos {
        None => base,
        Some(p) => Predicate::And(
            Box::new(base),
            Box::new(Predicate::PosEquals(p.to_owned())),
        ),
    };
    Some(FilterSpec { predicate, order_by_headword_asc: true })
}

/// Character-wise string equality; used to compare short language codes.
pub fn str_eq(a: &str, b: &str) -> (r: bool)
    ensures
        r == (a@ == b@),
{
    let an = a.unicode_len();
    let bn = b.unicode_len();
    if an != bn {
        return false;
    }
    let mut i: usize = 0;
    while i < an
        invariant
            an == a@.len(),
            an == b@.len(),
            i <= an,
            forall|j: int| 0 <= j < i ==> a@[j] == b@[j],
        decreases an - i,
    {
        if a.get_char(i) != b.get_char(i) {
            return false;
        }
        i = i + 1;
    }
    proof {
        assert(a@ =~= b@);
    }
    true
}

/// Builds the substrate filter for one tier: the tier's base predicate on the
/// headword, expanded by the language filter policy, with the part-of-speech
/// constraint ANDed on after language expansion, and the fixed
/// order-by-headword directive.
pub fn build_search_query(match_type: MatchType, lang: Option<&str>, pos: Option<&str>) -> (r:
    FilterSpec)
    ensures
        spec_filter_matches(r, match_type, spec_opt_str_view(lang), spec_opt_str_view(pos)),
{
    let lang_part = match lang {
        None => Predicate::Base(match_type, Field::Headword),
        Some(l) => {
            if str_eq(l, "ro") {
                Predicate::Or(
                    Box::new(Predicate::Base(match_type, Field::Headword)),
                    Box::new(Predicate::Base(match_type, Field::TranslationRo)),
                )
            } else if str_eq(l, "en") {
                Predicate::Or(
                    Box::new(Predicate::Base(match_type, Field::Headword)),
                    Box::new(Predicate::Base(match_type, Field::TranslationEn)),
                )
            } else if str_eq(l, "fr") {
                Predicate::Or(
                    Box::new(Predicate::Base(match_type, Field::Headword)),
                    Box::new(Predicate::Base(match_type, Field::TranslationFr)),
                )
            } else if str_eq(l, "all") {
                Predicate::Or(
                    Box::new(
                        Predicate::Or(
                            Box::new(
                                Predicate::Or(
                                    Box::new(Predicate::Base(match_type, Field::Headword)),
                                    Box::new(Predicate::Base(match_type, Field::TranslationRo)),
                                ),
                            ),
                            Box::new(Predicate::Base(match_type, Field::TranslationEn)),
                        ),
                    ),
                    Box::new(Predicate::Base(match_type, Field::TranslationFr)),
                )
            } else {
                Predicate::Base(match_type, Field::Headword)
            }
        },
    };
    let predicate = match pos {
        None => lang_part,
        Some(p) => Predicate::And(
            Box::new(lang_part),
            Box::new(Predicate::PosEquals(p.to_owned())),
        ),
    };
    FilterSpec { predicate, order_by_headword_asc: true }
}

} // verus!
