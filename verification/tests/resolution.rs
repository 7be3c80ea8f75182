use wallfetch::resolver::{resolve, similarity_score, ResolutionError};

fn names(list: &[&str]) -> Vec<String> {
    list.iter().map(|s| s.to_string()).collect()
}

#[test]
fn similarity_counts_positional_matches() {
    assert_eq!(similarity_score("nature", "nature"), 6);
    assert_eq!(similarity_score("nature", "natur"), 5);
    assert_eq!(similarity_score("nature", "nautr"), 3);
    assert_eq!(similarity_score("nature", ""), 0);
    assert_eq!(similarity_score("", "nature"), 0);
    assert_eq!(similarity_score("abc", "xyz"), 0);
}

#[test]
fn similarity_is_case_insensitive() {
    assert_eq!(similarity_score("Nature", "nATURE"), 6);
    assert_eq!(similarity_score("CITY", "city"), 4);
}

#[test]
fn exact_match_resolves() {
    let candidates = names(&["nature", "city"]);
    assert_eq!(resolve(&candidates, "nature"), Ok(0));
    assert_eq!(resolve(&candidates, "city"), Ok(1));
}

#[test]
fn exact_match_ignores_case() {
    let candidates = names(&["Nature", "City"]);
    assert_eq!(resolve(&candidates, "nAtUrE"), Ok(0));
}

#[test]
fn full_positional_score_resolves() {
    // Every query character matches positionally, so resolution succeeds even
    // though the query is only a prefix of the candidate.
    let candidates = names(&["nature"]);
    assert_eq!(resolve(&candidates, "natur"), Ok(0));
}

#[test]
fn positional_mismatch_is_ambiguous() {
    // "nautr" against "nature" matches at positions 0, 1 and 4: score 3 of a
    // 5-character query, and 3/5 >= 0.5, so the best candidate is suggested.
    let candidates = names(&["nature"]);
    match resolve(&candidates, "nautr") {
        Err(ResolutionError::AmbiguousName { suggestion }) => {
            assert_eq!(suggestion, "nature");
        },
        other => panic!("expected AmbiguousName, got {:?}", other),
    }
}

#[test]
fn far_query_is_unknown_with_all_suggestions() {
    let candidates = names(&["alpha", "beta"]);
    match resolve(&candidates, "zzzzzz") {
        Err(ResolutionError::UnknownName { suggestions }) => {
            assert_eq!(suggestions.len(), 2);
            assert!(suggestions.contains(&"alpha".to_string()));
            assert!(suggestions.contains(&"beta".to_string()));
        },
        other => panic!("expected UnknownName, got {:?}", other),
    }
}

#[test]
fn unknown_suggestions_capped_at_five_and_ordered() {
    // Scores against "abcdefgh" (length 8): all below 4, so the name is
    // unknown; the top five candidates come back by descending score.
    let candidates = names(&["x", "a", "abc", "y", "ab", "z"]);
    match resolve(&candidates, "abcdefgh") {
        Err(ResolutionError::UnknownName { suggestions }) => {
            assert_eq!(suggestions.len(), 5);
            assert_eq!(suggestions[0], "abc");
            assert_eq!(suggestions[1], "ab");
            assert_eq!(suggestions[2], "a");
            let mut last = similarity_score(&suggestions[0], "abcdefgh");
            for s in &suggestions {
                let score = similarity_score(s, "abcdefgh");
                assert!(score <= last);
                last = score;
            }
        },
        other => panic!("expected UnknownName, got {:?}", other),
    }
}

#[test]
fn empty_query_resolves_degenerately() {
    // A zero-length query scores 0 against everything, which equals its
    // length, so resolution succeeds with a top-scored candidate.
    let candidates = names(&["anything", "else"]);
    assert!(resolve(&candidates, "").is_ok());
}
