//! Data model shared by the search core and its callers.
//!
//! All values here are request-scoped: they are built per call and discarded
//! once the response is produced. Entry identity is an opaque 128-bit id;
//! match confidence is kept in tenths (an integer) so that the scoring policy
//! can be reasoned about exactly.

use vstd::prelude::*;

verus! {

/// Dictionary entry as the core reads it from storage. The core never writes
/// one; identity (`id`) is the only field the ranking policy inspects.
pub struct DictionaryEntry {
    pub id: u128,
    pub headword: String,
    pub pronunciation: Option<String>,
    pub part_of_speech: Option<String>,
    pub inflections: Option<String>,
    pub definition: Option<String>,
    pub translation_ro: Option<String>,
    pub translation_en: Option<String>,
    pub translation_fr: Option<String>,
    pub etymology: Option<String>,
    pub examples: Vec<String>,
    pub expressions: Vec<String>,
    pub related_terms: Vec<String>,
    pub context: Option<String>,
    pub source: Option<String>,
    pub source_url: Option<String>,
}

/// Entry shape used for bulk import of source records.
pub struct ImportEntry {
    pub headword: String,
    pub pronunciation: Option<String>,
    pub part_of_speech: Option<String>,
    pub inflections: Option<String>,
    pub definition: Option<String>,
    pub translation_ro: Option<String>,
    pub translation_en: Option<String>,
    pub translation_fr: Option<String>,
    pub etymology: Option<String>,
    pub examples: Vec<String>,
    pub expressions: Vec<String>,
    pub related_terms: Vec<String>,
    pub context: Option<String>,
    pub source: Option<String>,
    pub source_url: Option<String>,
}

/// The four match tiers, in falling priority order: an entry found by an
/// earlier tier is never re-tagged by a later one.
#[derive(Clone, Copy, Debug, PartialEq, Eq, Structural)]
pub enum MatchType {
    Exact,
    Prefix,
    Contains,
    Fuzzy,
}

impl MatchType {
    /// Position of this tier in the priority order: 0 is the strongest match.
    pub open spec fn spec_tier_index(self) -> int {
        match self {
            MatchType::Exact => 0,
            MatchType::Prefix => 1,
            MatchType::Contains => 2,
            MatchType::Fuzzy => 3,
        }
    }

    /// Fixed confidence score of this tier, in tenths: 1.0, 0.8, 0.6, 0.4.
    pub open spec fn spec_score_tenths(self) -> int {
        match self {
            MatchType::Exact => 10,
            MatchType::Prefix => 8,
            MatchType::Contains => 6,
            MatchType::Fuzzy => 4,
        }
    }

    /// Tier at a given position of the priority order.
    pub open spec fn spec_of_tier_index(i: int) -> MatchType {
        if i == 0 {
            MatchType::Exact
        } else if i == 1 {
            MatchType::Prefix
        } else if i == 2 {
            MatchType::Contains
        } else {
            MatchType::Fuzzy
        }
    }

    /// Fixed confidence score of this tier, in tenths of the usual 0.0--1.0
    /// scale: Exact scores 10, Prefix 8, Contains 6, Fuzzy 4.
    pub fn score_tenths(self) -> (s: u32)
        ensures
            s == self.spec_score_tenths(),
    {
        match self {
            MatchType::Exact => 10,
            MatchType::Prefix => 8,
            MatchType::Contains => 6,
            MatchType::Fuzzy => 4,
        }
    }

    /// Tier at a given position of the priority order; callers hand an index
    /// below four.
    pub fn of_tier_index(i: usize) -> (m: MatchType)
        requires
            i < 4,
        ensures
            m == MatchType::spec_of_tier_index(i as int),
    {
        if i == 0 {
            MatchType::Exact
        } else if i == 1 {
            MatchType::Prefix
        } else if i == 2 {
            MatchType::Contains
        } else {
            MatchType::Fuzzy
        }
    }
}

/// One ranked search hit: the entry, the tier that found it, and that tier's
/// fixed score in tenths. The score is tier-determined, never a similarity
/// value from storage.
pub struct SearchResult {
    pub entry: DictionaryEntry,
    pub score: u32,
    pub match_type: MatchType,
}

/// Query parameters of the search operation.
pub struct SearchQuery {
    pub q: String,
    pub lang: Option<String>,
    pub pos: Option<String>,
    pub limit: Option<i64>,
}

/// Query parameters of the autocomplete operation.
pub struct SuggestionQuery {
    pub q: String,
    pub limit: Option<i64>,
}

/// Query parameters for browsing entries by initial letter.
pub struct LetterQuery {
    pub limit: Option<i64>,
    pub offset: Option<i64>,
}

/// Autocomplete suggestion item.
pub struct Suggestion {
    pub headword: String,
    pub part_of_speech: Option<String>,
}

/// Aggregate statistics over the whole dictionary.
pub struct DictionaryStats {
    pub total_entries: i64,
    pub entries_by_letter: Vec<LetterCount>,
    pub entries_by_pos: Vec<PosCount>,
}

/// Number of entries whose headword starts with one letter.
pub struct LetterCount {
    pub letter: String,
    pub count: i64,
}

/// Number of entries of one part of speech.
pub struct PosCount {
    pub part_of_speech: String,
    pub count: i64,
}

/// Response wrapper pairing a payload with an optional total count.
pub struct ApiResponse<T> {
    pub data: T,
    pub total: Option<i64>,
}

impl<T> ApiResponse<T> {
    /// Wraps a payload with no total count attached.
    pub fn new(data: T) -> (r: ApiResponse<T>)
        ensures
            r.data == data,
            r.total is None,
    {
        ApiResponse { data, total: None }
    }

    /// Wraps a payload together with a total count.
    pub fn with_total(data: T, total: i64) -> (r: ApiResponse<T>)
        ensures
            r.data == data,
            r.total == Some(total),
    {
        ApiResponse { data, total: Some(total) }
    }
}

} // verus!
