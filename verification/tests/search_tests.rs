//! End-to-end tests of the tier orchestrator against an in-memory substrate
//! double. The double honours the substrate contract: it returns at most
//! `cap` rows satisfying the filter, ordered by headword ascending. Where
//! more rows match than the cap admits, the contract leaves the chosen
//! subset open; this double keeps the last matches in headword order, which
//! lets lower tiers surface rows the stronger tiers already returned less of.

use dixi_backend::models::{DictionaryEntry, MatchType, SearchResult};
use dixi_backend::normalize::normalize;
use dixi_backend::query::{Field, Predicate};
use dixi_backend::search::{SearchError, SearchSession, TierPlan};

/// Entry with the given identity and headword; the fuzzy similarity against
/// the test query travels alongside in the store.
fn entry(id: u128, headword: &str) -> DictionaryEntry {
    DictionaryEntry {
        id,
        headword: String::from(headword),
        pronunciation: None,
        part_of_speech: None,
        inflections: None,
        definition: None,
        translation_ro: None,
        translation_en: None,
        translation_fr: None,
        etymology: None,
        examples: Vec::new(),
        expressions: Vec::new(),
        related_terms: Vec::new(),
        context: None,
        source: None,
        source_url: None,
    }
}

fn clone_entry(e: &DictionaryEntry) -> DictionaryEntry {
    let mut c = entry(e.id, &e.headword);
    c.part_of_speech = e.part_of_speech.clone();
    c.translation_ro = e.translation_ro.clone();
    c.translation_en = e.translation_en.clone();
    c.translation_fr = e.translation_fr.clone();
    c
}

fn eval_base(mt: MatchType, text: Option<&str>, key: &str, sim: f32) -> bool {
    let text = match text {
        Some(t) => normalize(t),
        None => String::new(),
    };
    match mt {
        MatchType::Exact => text == key,
        MatchType::Prefix => text.starts_with(key),
        MatchType::Contains => text.contains(key),
        MatchType::Fuzzy => sim > 0.3,
    }
}

fn eval_pred(p: &Predicate, e: &DictionaryEntry, key: &str, sim: f32) -> bool {
    match p {
        Predicate::Base(mt, field) => {
            let text = match field {
                Field::Headword => Some(e.headword.as_str()),
                Field::TranslationRo => e.translation_ro.as_deref(),
                Field::TranslationEn => e.translation_en.as_deref(),
                Field::TranslationFr => e.translation_fr.as_deref(),
            };
            eval_base(*mt, text, key, sim)
        }
        Predicate::PosEquals(v) => e.part_of_speech.as_deref() == Some(v.as_str()),
        Predicate::Or(a, b) => eval_pred(a, e, key, sim) || eval_pred(b, e, key, sim),
        Predicate::And(a, b) => eval_pred(a, e, key, sim) && eval_pred(b, e, key, sim),
    }
}

/// Substrate double: rows matching the filter, ordered by headword, at most
/// `cap` of them (the last in headword order when more match).
fn substrate(plan: &TierPlan, store: &[(DictionaryEntry, f32)]) -> Vec<DictionaryEntry> {
    assert!(plan.filter.order_by_headword_asc);
    let mut rows: Vec<&DictionaryEntry> = store
        .iter()
        .filter(|(e, sim)| eval_pred(&plan.filter.predicate, e, &plan.key, *sim))
        .map(|(e, _)| e)
        .collect();
    rows.sort_by(|a, b| a.headword.cmp(&b.headword));
    let cap = plan.cap.max(0) as usize;
    let skip = rows.len().saturating_sub(cap);
    rows.into_iter().skip(skip).map(clone_entry).collect()
}

/// Runs a whole search against the double; also reports how many tiers were
/// actually queried.
fn run_search(
    store: &[(DictionaryEntry, f32)],
    q: &str,
    lang: Option<&str>,
    pos: Option<&str>,
    limit: i64,
) -> (Vec<SearchResult>, usize) {
    assert!((0..0x8000_0000).contains(&limit), "caller must clamp the limit");
    let mut session = SearchSession::new(
        q,
        lang.map(String::from),
        pos.map(String::from),
        limit,
    );
    let mut queried = 0;
    while let Some(plan) = session.next_action() {
        queried += 1;
        let rows = substrate(&plan, store);
        session.absorb_tier(rows);
    }
    (session.finish(), queried)
}

/// The four-entry store of the worked examples: "casa" matches exactly,
/// "casar" by prefix, "incasa" by substring, "kasa" only by similarity.
fn casa_store() -> Vec<(DictionaryEntry, f32)> {
    vec![
        (entry(1, "casa"), 1.0),
        (entry(2, "casar"), 0.57),
        (entry(3, "incasa"), 0.5),
        (entry(4, "kasa"), 0.5),
    ]
}

#[test]
fn tier_priority_exact_wins_over_prefix() {
    let (results, _) = run_search(&casa_store(), "casa", None, None, 10);
    let casa: Vec<&SearchResult> = results.iter().filter(|r| r.entry.id == 1).collect();
    assert_eq!(casa.len(), 1);
    assert_eq!(casa[0].match_type, MatchType::Exact);
    assert_eq!(casa[0].score, 10);
}

#[test]
fn dedup_entry_matching_three_tiers_appears_once() {
    // "casa" satisfies the exact, prefix and contains predicates at once.
    let (results, _) = run_search(&casa_store(), "casa", None, None, 10);
    assert_eq!(results.iter().filter(|r| r.entry.id == 1).count(), 1);
}

#[test]
fn budget_limit_8_caps_every_tier_at_3() {
    let mut session = SearchSession::new("casa", None, None, 8);
    let store = casa_store();
    let mut caps = Vec::new();
    while let Some(plan) = session.next_action() {
        caps.push(plan.cap);
        let rows = substrate(&plan, &store);
        session.absorb_tier(rows);
    }
    assert!(!caps.is_empty());
    assert!(caps.iter().all(|&c| c == 3));
    let results = session.finish();
    assert!(results.len() <= 8);
}

#[test]
fn early_exit_skips_remaining_tiers() {
    // The exact tier alone fills the limit: no other tier is ever queried.
    let store = vec![(entry(1, "casa"), 1.0), (entry(2, "casar"), 0.57)];
    let (results, queried) = run_search(&store, "casa", None, None, 1);
    assert_eq!(queried, 1);
    assert_eq!(results.len(), 1);
    assert!(results.iter().all(|r| r.match_type == MatchType::Exact));
}

#[test]
fn ordering_non_increasing_scores_and_stable_ties() {
    // Two homographs match exactly; scores come out [10, 10, 8, 6].
    let store = vec![
        (entry(1, "casa"), 1.0),
        (entry(2, "casa"), 1.0),
        (entry(3, "casar"), 0.57),
        (entry(4, "incasa"), 0.5),
    ];
    let (results, _) = run_search(&store, "casa", None, None, 4);
    let scores: Vec<u32> = results.iter().map(|r| r.score).collect();
    assert_eq!(scores, vec![10, 10, 8, 6]);
    for w in results.windows(2) {
        assert!(w[0].score >= w[1].score);
    }
    // Within the tied exact pair, substrate (insertion) order is preserved.
    assert_eq!(results[0].entry.id, 1);
    assert_eq!(results[1].entry.id, 2);
}

#[test]
fn unknown_language_filter_matches_no_filter() {
    let store = casa_store();
    let (with_unknown, _) = run_search(&store, "casa", Some("xx"), None, 10);
    let (without, _) = run_search(&store, "casa", None, None, 10);
    assert_eq!(with_unknown.len(), without.len());
    for (a, b) in with_unknown.iter().zip(without.iter()) {
        assert_eq!(a.entry.id, b.entry.id);
        assert_eq!(a.match_type, b.match_type);
        assert_eq!(a.score, b.score);
    }
}

#[test]
fn language_filter_reaches_translation_fields() {
    let mut e = entry(9, "lemn");
    e.translation_en = Some(String::from("house"));
    let store = vec![(e, 0.0), (entry(1, "casa"), 0.0)];
    let (results, _) = run_search(&store, "house", Some("en"), None, 10);
    assert_eq!(results.len(), 1);
    assert_eq!(results[0].entry.id, 9);
    let (none, _) = run_search(&store, "house", None, None, 10);
    assert!(none.is_empty());
}

#[test]
fn pos_filter_constrains_results() {
    let mut sf = entry(1, "casa");
    sf.part_of_speech = Some(String::from("sf"));
    let mut vb = entry(2, "casa");
    vb.part_of_speech = Some(String::from("vb"));
    let store = vec![(sf, 1.0), (vb, 1.0)];
    let (results, _) = run_search(&store, "casa", None, Some("sf"), 10);
    assert_eq!(results.len(), 1);
    assert_eq!(results[0].entry.id, 1);
}

#[test]
fn end_to_end_casa_limit_5() {
    let (results, _) = run_search(&casa_store(), "casa", None, None, 5);
    let summary: Vec<(u128, MatchType, u32)> =
        results.iter().map(|r| (r.entry.id, r.match_type, r.score)).collect();
    assert_eq!(
        summary,
        vec![
            (1, MatchType::Exact, 10),
            (2, MatchType::Prefix, 8),
            (3, MatchType::Contains, 6),
            (4, MatchType::Fuzzy, 4),
        ]
    );
}

#[test]
fn end_to_end_casa_limit_2_stops_after_prefix() {
    let (results, queried) = run_search(&casa_store(), "casa", None, None, 2);
    assert_eq!(queried, 2);
    let summary: Vec<(u128, MatchType, u32)> =
        results.iter().map(|r| (r.entry.id, r.match_type, r.score)).collect();
    assert_eq!(summary, vec![(1, MatchType::Exact, 10), (2, MatchType::Prefix, 8)]);
}

#[test]
fn limit_zero_queries_nothing() {
    let (results, queried) = run_search(&casa_store(), "casa", None, None, 0);
    assert_eq!(queried, 0);
    assert!(results.is_empty());
}

#[test]
fn query_is_normalized_before_matching() {
    let (results, _) = run_search(&casa_store(), "CAS\u{c3}", None, None, 5);
    assert_eq!(results[0].entry.id, 1);
    assert_eq!(results[0].match_type, MatchType::Exact);
}

#[test]
fn search_error_keeps_tier_context() {
    let e = SearchError::in_tier(MatchType::Contains, String::from("connection reset"));
    assert_eq!(e.tier, MatchType::Contains);
    assert_eq!(e.detail, "connection reset");
}
