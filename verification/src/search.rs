//! Tier orchestrator: the ranking core of the search engine.
//!
//! A search runs the four match tiers in falling priority order (exact,
//! prefix, contains, fuzzy), strictly one after the other. Each tier is asked
//! for at most a fixed per-tier budget of rows; a tier is skipped entirely
//! once the overall limit is reached. Rows coming back are merged into the
//! accumulated list: an entry already found by an earlier (stronger) tier is
//! dropped, a new entry is appended carrying this tier's match type and fixed
//! score. Because tiers run in score order and merging only appends, the
//! accumulated list is always sorted by falling score with insertion order
//! breaking ties, so the final step only truncates to the overall limit.
//!
//! The substrate queries themselves are the caller's: the caller asks
//! [`SearchSession::next_action`] what to look up, runs the lookup, and hands
//! the rows to [`SearchSession::absorb_tier`]. A failed lookup aborts the
//! whole search; the session is simply dropped.

use vstd::prelude::*;
use crate::models::{DictionaryEntry, MatchType, SearchResult};
use crate::normalize::{normalize, norm_seq};
use crate::query::{build_search_query, spec_filter_matches, FilterSpec};

verus! {

/// Error carried to the caller when one tier's substrate lookup fails: the
/// search is aborted as a whole and the failing tier is kept as context.
pub struct SearchError {
    pub tier: MatchType,
    pub detail: String,
}

impl SearchError {
    /// Wraps a substrate failure with the tier that was executing.
    pub fn in_tier(tier: MatchType, detail: String) -> (e: SearchError)
        ensures
            e.tier == tier,
            e.detail == detail,
    {
        SearchError { tier, detail }
    }
}

/// The ranked result a tier assigns to an entry it found: the entry, the
/// tier's tag, and the tier's fixed score.
pub open spec fn spec_result_of(e: DictionaryEntry, mt: MatchType) -> SearchResult {
    SearchResult { entry: e, score: mt.spec_score_tenths() as u32, match_type: mt }
}

/// Whether some accumulated result already carries this entry identity.
pub open spec fn spec_contains_id(rs: Seq<SearchResult>, id: u128) -> bool {
    exists|i: int| 0 <= i < rs.len() && rs[i].entry.id == id
}

/// One merge step: an entry whose identity is already present is dropped,
/// a new one is appended with the tier's tag and score.
pub open spec fn spec_push_if_new(
    rs: Seq<SearchResult>,
    e: DictionaryEntry,
    mt: MatchType,
) -> Seq<SearchResult> {
    if spec_contains_id(rs, e.id) {
        rs
    } else {
        rs.push(spec_result_of(e, mt))
    }
}

/// Merging one tier's rows into the accumulated list, in substrate order.
pub open spec fn spec_merge_tier(
    rs: Seq<SearchResult>,
    es: Seq<DictionaryEntry>,
    mt: MatchType,
) -> Seq<SearchResult>
    decreases es.len(),
{
    if es.len() == 0 {
        rs
    } else {
        spec_merge_tier(spec_push_if_new(rs, es[0], mt), es.drop_first(), mt)
    }
}

/// No two accumulated results carry the same entry identity.
pub open spec fn spec_distinct_ids(rs: Seq<SearchResult>) -> bool {
    forall|i: int, j: int| 0 <= i < j < rs.len() ==> rs[i].entry.id != rs[j].entry.id
}

/// Every accumulated result carries exactly its tier's fixed score.
pub open spec fn spec_scores_match(rs: Seq<SearchResult>) -> bool {
    forall|i: int| 0 <= i < rs.len() ==> #[trigger] rs[i].score
        == rs[i].match_type.spec_score_tenths()
}

/// Results appear in tier priority order: a stronger match never stands after
/// a weaker one.
pub open spec fn spec_tier_monotone(rs: Seq<SearchResult>) -> bool {
    forall|i: int, j: int| 0 <= i <= j < rs.len() ==> rs[i].match_type.spec_tier_index()
        <= rs[j].match_type.spec_tier_index()
}

/// Every accumulated result came from a tier before the given position of the
/// priority order.
pub open spec fn spec_tiers_below(rs: Seq<SearchResult>, t: int) -> bool {
    forall|i: int| 0 <= i < rs.len() ==> #[trigger] rs[i].match_type.spec_tier_index() < t
}

/// Scores never increase along the list.
pub open spec fn spec_scores_sorted(rs: Seq<SearchResult>) -> bool {
    forall|i: int, j: int| 0 <= i <= j < rs.len() ==> rs[i].score >= rs[j].score
}

/// Merging appends only: every result already accumulated keeps its place,
/// its entry and its match type, so the highest-priority tier that found an
/// entry is the one that tags it — a later tier never overwrites it. What the
/// merge appends is exactly this tier's results, for entries not seen before.
pub proof fn lemma_merge_preserves_earlier(
    rs: Seq<SearchResult>,
    es: Seq<DictionaryEntry>,
    mt: MatchType,
)
    ensures
        spec_merge_tier(rs, es, mt).len() >= rs.len(),
        forall|i: int| 0 <= i < rs.len() ==> #[trigger] spec_merge_tier(rs, es, mt)[i] == rs[i],
        forall|j: int|
            rs.len() <= j < spec_merge_tier(rs, es, mt).len() ==> (#[trigger] spec_merge_tier(
                rs,
                es,
                mt,
            )[j]).match_type == mt && spec_merge_tier(rs, es, mt)[j].score
                == mt.spec_score_tenths() && !spec_contains_id(
                rs,
                spec_merge_tier(rs, es, mt)[j].entry.id,
            ),
    decreases es.len(),
{
    if es.len() == 0 {
    } else {
        let rs1 = spec_push_if_new(rs, es[0], mt);
        lemma_merge_preserves_earlier(rs1, es.drop_first(), mt);
        assert forall|j: int|
            rs.len() <= j < spec_merge_tier(rs, es, mt).len() implies (#[trigger] spec_merge_tier(
            rs,
            es,
            mt,
        )[j]).match_type == mt && spec_merge_tier(rs, es, mt)[j].score == mt.spec_score_tenths()
            && !spec_contains_id(rs, spec_merge_tier(rs, es, mt)[j].entry.id) by {
            if j < rs1.len() {
                assert(spec_merge_tier(rs1, es.drop_first(), mt)[j] == rs1[j]);
            } else {
                assert(!spec_contains_id(rs1, spec_merge_tier(rs1, es.drop_first(), mt)[j].entry.id));
                assert forall|id: u128| spec_contains_id(rs, id) implies spec_contains_id(
                    rs1,
                    id,
                ) by {
                    let w = choose|i: int| 0 <= i < rs.len() && rs[i].entry.id == id;
                    assert(rs1[w].entry.id == id);
                }
            }
        }
    }
}

/// Cross-tier deduplication: if the accumulated identities are distinct, they
/// stay distinct through a merge — an entry satisfying several tiers'
/// predicates appears exactly once.
pub proof fn lemma_merge_distinct(rs: Seq<SearchResult>, es: Seq<DictionaryEntry>, mt: MatchType)
    requires
        spec_distinct_ids(rs),
    ensures
        spec_distinct_ids(spec_merge_tier(rs, es, mt)),
    decreases es.len(),
{
    if es.len() == 0 {
    } else {
        let rs1 = spec_push_if_new(rs, es[0], mt);
        assert forall|i: int, j: int| 0 <= i < j < rs1.len() implies rs1[i].entry.id
            != rs1[j].entry.id by {
            if j == rs.len() {
                assert(!spec_contains_id(rs, rs1[j].entry.id));
            }
        }
        lemma_merge_distinct(rs1, es.drop_first(), mt);
    }
}

/// Merging one tier keeps the list well formed: scores still match their
/// tiers, tiers still appear in priority order, and everything now stems from
/// a tier up to and including this one. With scores fixed per tier and tiers
/// run in falling score order, this is what keeps the accumulated list sorted
/// by falling score at all times.
pub proof fn lemma_merge_wf(rs: Seq<SearchResult>, es: Seq<DictionaryEntry>, mt: MatchType)
    requires
        spec_scores_match(rs),
        spec_tier_monotone(rs),
        spec_tiers_below(rs, mt.spec_tier_index()),
        spec_distinct_ids(rs),
    ensures
        spec_scores_match(spec_merge_tier(rs, es, mt)),
        spec_tier_monotone(spec_merge_tier(rs, es, mt)),
        spec_tiers_below(spec_merge_tier(rs, es, mt), mt.spec_tier_index() + 1),
        spec_distinct_ids(spec_merge_tier(rs, es, mt)),
{
    lemma_merge_preserves_earlier(rs, es, mt);
    lemma_merge_distinct(rs, es, mt);
    let merged = spec_merge_tier(rs, es, mt);
    assert forall|i: int, j: int| 0 <= i <= j < merged.len() implies merged[i].match_type.spec_tier_index()
        <= merged[j].match_type.spec_tier_index() by {
        if i < rs.len() {
            assert(merged[i] == rs[i]);
        }
        if j < rs.len() {
            assert(merged[j] == rs[j]);
        }
    }
}

/// A list whose scores match tiers and whose tiers appear in priority order
/// is sorted by falling score.
pub proof fn lemma_tier_order_sorts_scores(rs: Seq<SearchResult>)
    requires
        spec_scores_match(rs),
        spec_tier_monotone(rs),
    ensures
        spec_scores_sorted(rs),
{
    assert forall|i: int, j: int| 0 <= i <= j < rs.len() implies rs[i].score >= rs[j].score by {
        assert(rs[i].score == rs[i].match_type.spec_score_tenths());
        assert(rs[j].score == rs[j].match_type.spec_score_tenths());
        assert(rs[i].match_type.spec_tier_index() <= rs[j].match_type.spec_tier_index());
    }
}

/// One planned substrate lookup: the tier to run, the hard row cap, the
/// normalized query key, and the structured filter to apply.
pub struct TierPlan {
    pub match_type: MatchType,
    pub cap: i64,
    pub key: String,
    pub filter: FilterSpec,
}

/// State of one search request as it walks the tiers. The caller alternates
/// [`SearchSession::next_action`] (what to ask the substrate, if anything)
/// with [`SearchSession::absorb_tier`] (merge what came back), and closes
/// with [`SearchSession::finish`].
pub struct SearchSession {
    /// Normalized form of the raw query, matched by every tier.
    pub query_key: String,
    /// Optional language filter, handed to the query builder per tier.
    pub lang: Option<String>,
    /// Optional part-of-speech filter, handed to the query builder per tier.
    pub pos: Option<String>,
    /// Overall result budget, as the caller clamped it.
    pub limit: i64,
    /// Accumulated results, in tier order then substrate order.
    pub results: Vec<SearchResult>,
    /// Position in the tier priority order of the next tier to run.
    pub next_tier: usize,
}

impl SearchSession {
    /// The session's internal invariant: the tier cursor stays within the
    /// four tiers, and the accumulated list is deduplicated, correctly
    /// scored, in tier priority order, and drawn entirely from tiers already
    /// run.
    pub open spec fn wf(self) -> bool {
        &&& 0 <= self.limit < 0x8000_0000
        &&& self.next_tier <= 4
        &&& spec_scores_match(self.results@)
        &&& spec_tier_monotone(self.results@)
        &&& spec_tiers_below(self.results@, self.next_tier as int)
        &&& spec_distinct_ids(self.results@)
    }

    /// Per-tier row budget: a quarter of the overall limit, plus one. The
    /// slight over-provisioning is deliberate slack so that deduplication
    /// losses in earlier tiers do not starve later ones.
    pub open spec fn spec_tier_cap(self) -> int {
        self.limit as int / 4 + 1
    }

    /// Opens a search: normalizes the raw query once and stands before the
    /// first tier with nothing accumulated. The limit is the caller's,
    /// already clamped to a sane bound.
    pub fn new(raw_query: &str, lang: Option<String>, pos: Option<String>, limit: i64) -> (s:
        SearchSession)
        requires
            0 <= limit < 0x8000_0000,
        ensures
            s.wf(),
            s.query_key@ == norm_seq(raw_query@),
            s.lang == lang,
            s.pos == pos,
            s.limit == limit,
            s.results@ == Seq::<SearchResult>::empty(),
            s.next_tier == 0,
    {
        SearchSession {
            query_key: normalize(raw_query),
            lang,
            pos,
            limit,
            results: Vec::new(),
            next_tier: 0,
        }
    }

    /// Decides the next substrate lookup. Returns one exactly while tiers
    /// remain and the accumulated count is still below the overall limit: a
    /// tier skipped by this early exit is never queried at all. The plan
    /// carries the tier in priority order, the per-tier cap, the normalized
    /// key, and the filter built by the query builder from this session's
    /// language and part-of-speech filters.
    pub fn next_action(&self) -> (r: Option<TierPlan>)
        requires
            self.wf(),
        ensures
            r is Some <==> (self.next_tier < 4 && (self.results@.len() as int) < self.limit as int),
            r matches Some(p) ==> {
                &&& p.match_type == MatchType::spec_of_tier_index(self.next_tier as int)
                &&& p.cap == self.spec_tier_cap()
                &&& p.key@ == self.query_key@
                &&& spec_filter_matches(
                    p.filter,
                    p.match_type,
                    spec_opt_string_view(self.lang),
                    spec_opt_string_view(self.pos),
                )
            },
    {
        if self.next_tier >= 4 {
            return None;
        }
        if self.results.len() >= self.limit as usize {
            return None;
        }
        let mt = MatchType::of_tier_index(self.next_tier);
        let lang_ref = match &self.lang {
            Some(l) => Some(l.as_str()),
            None => None,
        };
        let pos_ref = match &self.pos {
            Some(p) => Some(p.as_str()),
            None => None,
        };
        let filter = build_search_query(mt, lang_ref, pos_ref);
        Some(TierPlan { match_type: mt, cap: self.limit / 4 + 1, key: self.query_key.clone(), filter })
    }

    /// Merges one tier's rows, in substrate order: an entry already
    /// accumulated is dropped, a new one is appended tagged with this tier
    /// and its fixed score. Then the session moves past this tier. Nothing
    /// else of the session changes.
    pub fn absorb_tier(&mut self, entries: Vec<DictionaryEntry>)
        requires
            old(self).wf(),
            old(self).next_tier < 4,
        ensures
            final(self).wf(),
            final(self).results@ == spec_merge_tier(
                old(self).results@,
                entries@,
                MatchType::spec_of_tier_index(old(self).next_tier as int),
            ),
            final(self).next_tier == old(self).next_tier + 1,
            final(self).query_key == old(self).query_key,
            final(self).lang == old(self).lang,
            final(self).pos == old(self).pos,
            final(self).limit == old(self).limit,
    {
        let mt = MatchType::of_tier_index(self.next_tier);
        let ghost rs0 = self.results@;
        let ghost orig = entries@;
        let mut entries = entries;
        while entries.len() > 0
            invariant
                entries@.len() <= orig.len(),
                entries@ == orig.subrange(orig.len() - entries@.len(), orig.len() as int),
                self.results@ == spec_merge_tier(rs0, orig.take(orig.len() - entries@.len()), mt),
                self.query_key == old(self).query_key,
                self.lang == old(self).lang,
                self.pos == old(self).pos,
                self.limit == old(self).limit,
                self.next_tier == old(self).next_tier,
            decreases entries@.len(),
        {
            let ghost k = orig.len() - entries@.len();
            let e = entries.remove(0);
            proof {
                assert(e == orig[k]);
                assert(entries@ == orig.subrange(k + 1, orig.len() as int));
            }
            let dup = contains_id(&self.results, e.id);
            if !dup {
                let score = mt.score_tenths();
                self.results.push(SearchResult { entry: e, score, match_type: mt });
            }
            proof {
                assert(orig.take(k + 1) =~= orig.take(k).push(orig[k]));
                lemma_merge_unfold_right(rs0, orig.take(k), orig[k], mt);
            }
        }
        proof {
            assert(orig.take(orig.len() as int) =~= orig);
            lemma_merge_wf(rs0, orig, mt);
        }
        self.next_tier = self.next_tier + 1;
    }

    /// Closes the search: the accumulated list, already sorted by falling
    /// score (tiers run in score order and ties keep insertion order, which
    /// is tier order then substrate order), truncated to the overall limit.
    pub fn finish(self) -> (r: Vec<SearchResult>)
        requires
            self.wf(),
        ensures
            r@ == if self.results@.len() <= self.limit as int {
                self.results@
            } else {
                self.results@.take(self.limit as int)
            },
            r@.len() <= self.limit as int,
            spec_scores_sorted(r@),
            spec_distinct_ids(r@),
    {
        proof {
            lemma_tier_order_sorts_scores(self.results@);
        }
        let mut results = self.results;
        results.truncate(self.limit as usize);
        proof {
            assert(spec_scores_sorted(results@));
            assert(spec_distinct_ids(results@));
        }
        results
    }
}

/// View of an optional owned string as an optional character sequence.
pub open spec fn spec_opt_string_view(s: Option<String>) -> Option<Seq<char>> {
    match s {
        Option::None => Option::None,
        Option::Some(t) => Option::Some(t@),
    }
}

/// Merging rows one more row at the end is one more merge step.
proof fn lemma_merge_unfold_right(
    rs: Seq<SearchResult>,
    es: Seq<DictionaryEntry>,
    e: DictionaryEntry,
    mt: MatchType,
)
    ensures
        spec_merge_tier(rs, es.push(e), mt) == spec_push_if_new(spec_merge_tier(rs, es, mt), e, mt),
    decreases es.len(),
{
    let s1 = es.push(e);
    if es.len() == 0 {
        assert(s1[0] == e);
        assert(s1.drop_first() =~= Seq::<DictionaryEntry>::empty());
        assert(spec_merge_tier(rs, s1, mt) == spec_merge_tier(
            spec_push_if_new(rs, e, mt),
            s1.drop_first(),
            mt,
        ));
        assert(spec_merge_tier(spec_push_if_new(rs, e, mt), s1.drop_first(), mt)
            == spec_push_if_new(rs, e, mt));
        assert(spec_merge_tier(rs, es, mt) == rs);
    } else {
        let rs1 = spec_push_if_new(rs, es[0], mt);
        assert(s1[0] == es[0]);
        assert(s1.drop_first() =~= es.drop_first().push(e));
        assert(spec_merge_tier(rs, s1, mt) == spec_merge_tier(rs1, es.drop_first().push(e), mt));
        lemma_merge_unfold_right(rs1, es.drop_first(), e, mt);
        assert(spec_merge_tier(rs, es, mt) == spec_merge_tier(rs1, es.drop_first(), mt));
    }
}

/// Whether some accumulated result already carries this entry identity.
fn contains_id(rs: &Vec<SearchResult>, id: u128) -> (b: bool)
    ensures
        b == spec_contains_id(rs@, id),
{
    let mut i: usize = 0;
    while i < rs.len()
        invariant
            i <= rs@.len(),
            forall|j: int| 0 <= j < i ==> rs@[j].entry.id != id,
        decreases rs@.len() - i,
    {
        if rs[i].entry.id == id {
            return true;
        }
        i = i + 1;
    }
    false
}

} // verus!
