use vector_query::resolver::{
    adapter_failed_response, content_failed_response, content_loaded_response, evaluate_match,
    no_match_response, AdapterKind, MatchDecision, SearchMatch,
};
use vector_query::score::Score;

fn threshold() -> Score {
    Score { micros: 750000 }
}

#[test]
fn empty_payload_is_refused() {
    let found = SearchMatch { score: Score { micros: 990000 }, path: None };
    let d = evaluate_match("any query", &found, &threshold());
    match d {
        MatchDecision::Done { response } => {
            assert_eq!(response.status, "KO");
            assert_eq!(response.query.as_deref(), Some("any query"));
            assert_eq!(response.score, "0.0");
            assert_eq!(
                response.data,
                "I could not find any related info, please refine your prompt"
            );
        }
        MatchDecision::Load { .. } => panic!("an empty payload must not load content"),
    }
}

#[test]
fn confident_match_loads_the_payload_path() {
    let found = SearchMatch {
        score: Score { micros: 920000 },
        path: Some("/srv/docs/reset.md".to_string()),
    };
    let d = evaluate_match("how do I reset my password", &found, &threshold());
    match d {
        MatchDecision::Load { path, score } => {
            assert_eq!(path, "/srv/docs/reset.md");
            assert_eq!(score.micros, 920000);
        }
        MatchDecision::Done { .. } => panic!("a confident match must load content"),
    }
}

#[test]
fn score_at_threshold_is_refused() {
    let found = SearchMatch {
        score: Score { micros: 750000 },
        path: Some("/srv/docs/reset.md".to_string()),
    };
    let d = evaluate_match("q", &found, &threshold());
    match d {
        MatchDecision::Done { response } => {
            assert_eq!(response.status, "KO");
            assert_eq!(response.score, "0.0");
            assert_eq!(
                response.data,
                "I could not find any related info, please refine your prompt"
            );
        }
        MatchDecision::Load { .. } => panic!("a score at the threshold must not load content"),
    }
}

#[test]
fn loaded_content_becomes_ok_response() {
    let r = content_loaded_response("q", &Score { micros: 920000 }, "Reset steps...".to_string());
    assert_eq!(r.status, "OK");
    assert_eq!(r.query.as_deref(), Some("q"));
    assert_eq!(r.data, "Reset steps...");
    assert_eq!(r.score, "0.92");
}

#[test]
fn vector_store_failure_is_reported() {
    let r = adapter_failed_response(AdapterKind::VectorStore, "connection refused");
    assert_eq!(r.status, "KO");
    assert_eq!(r.query, None);
    assert_eq!(r.score, "0.0");
    assert_eq!(r.data, "qdrant connection refused");
}

#[test]
fn embedding_failure_is_reported() {
    let r = adapter_failed_response(AdapterKind::Embedding, "model not found");
    assert_eq!(r.status, "KO");
    assert_eq!(r.query, None);
    assert_eq!(r.score, "0.0");
    assert_eq!(r.data, "ollama model not found");
}

#[test]
fn unreadable_content_is_reported() {
    let r = content_failed_response("q", "No such file or directory");
    assert_eq!(r.status, "KO");
    assert_eq!(r.query.as_deref(), Some("q"));
    assert_eq!(r.score, "0.0");
    assert_eq!(r.data, "content No such file or directory");
}

#[test]
fn same_query_twice_resolves_identically() {
    let run = || {
        let found = SearchMatch {
            score: Score { micros: 800000 },
            path: Some("/srv/docs/a.md".to_string()),
        };
        match evaluate_match("same query", &found, &threshold()) {
            MatchDecision::Load { score, .. } => {
                content_loaded_response("same query", &score, "stored content".to_string())
            }
            MatchDecision::Done { response } => response,
        }
    };
    let first = run();
    let second = run();
    assert_eq!(first.status, second.status);
    assert_eq!(first.query, second.query);
    assert_eq!(first.data, second.data);
    assert_eq!(first.score, second.score);
}

#[test]
fn no_match_echoes_the_query() {
    let r = no_match_response("echo me");
    assert_eq!(r.status, "KO");
    assert_eq!(r.query.as_deref(), Some("echo me"));
}
