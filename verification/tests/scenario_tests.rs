//! End-to-end walks of the routed query pipeline on scripted adapter
//! outcomes.

use vector_query::json::parse_query;
use vector_query::resolver::{
    content_loaded_response, evaluate_match, MatchDecision, SearchMatch,
};
use vector_query::router::{query_reply, route, Routed, ServiceOptions};
use vector_query::score::Score;

fn default_options() -> ServiceOptions {
    ServiceOptions { liveness_ok_status: false, category_from_request: false }
}

#[test]
fn confident_match_answers_ok() {
    let body = "{\"category\":\"docs\",\"query\":\"how do I reset my password\"}";
    let routed = route("POST", "/query", Some(body.len() as u64), &default_options());
    assert!(matches!(routed, Routed::Query));
    let details = parse_query(body).expect("well-formed body");
    let found = SearchMatch {
        score: Score { micros: 920000 },
        path: Some("/srv/docs/reset.md".to_string()),
    };
    let threshold = Score { micros: 750000 };
    let response = match evaluate_match(&details.query, &found, &threshold) {
        MatchDecision::Load { score, .. } => {
            content_loaded_response(&details.query, &score, "Reset steps...".to_string())
        }
        MatchDecision::Done { .. } => panic!("a confident match must load content"),
    };
    let reply = query_reply(&response);
    assert_eq!(reply.status, 200);
    assert_eq!(
        reply.body,
        "{\"status\":\"OK\",\"query\":\"how do I reset my password\",\"data\":\"Reset steps...\",\"score\":\"0.92\"}"
    );
}

#[test]
fn empty_search_answers_ko_500() {
    let body = "{\"category\":\"docs\",\"query\":\"how do I reset my password\"}";
    let routed = route("POST", "/query", Some(body.len() as u64), &default_options());
    assert!(matches!(routed, Routed::Query));
    let details = parse_query(body).expect("well-formed body");
    let found = SearchMatch { score: Score { micros: 0 }, path: None };
    let threshold = Score { micros: 750000 };
    let response = match evaluate_match(&details.query, &found, &threshold) {
        MatchDecision::Done { response } => response,
        MatchDecision::Load { .. } => panic!("an empty payload must not load content"),
    };
    let reply = query_reply(&response);
    assert_eq!(reply.status, 500);
    assert_eq!(
        reply.body,
        "{\"status\":\"KO\",\"query\":\"how do I reset my password\",\"data\":\"I could not find any related info, please refine your prompt\",\"score\":\"0.0\"}"
    );
}

#[test]
fn liveness_reports_ok_body() {
    let reply = match route("GET", "/isalive", None, &default_options()) {
        Routed::Reply(reply) => reply,
        Routed::Query => panic!("liveness is answered directly"),
    };
    assert_eq!(reply.status, 500);
    assert_eq!(
        reply.body,
        "{\"status\":\"OK\",\"query\":null,\"data\":\"service is up\",\"score\":\"0.0\"}"
    );
}

#[test]
fn liveness_status_under_corrected_option() {
    let options = ServiceOptions { liveness_ok_status: true, category_from_request: false };
    let reply = match route("GET", "/isalive", None, &options) {
        Routed::Reply(reply) => reply,
        Routed::Query => panic!("liveness is answered directly"),
    };
    assert_eq!(reply.status, 200);
}

#[test]
fn unknown_route_answers_404() {
    let reply = match route("POST", "/unknown-path", Some(10), &default_options()) {
        Routed::Reply(reply) => reply,
        Routed::Query => panic!("an unknown route is answered directly"),
    };
    assert_eq!(reply.status, 404);
    assert_eq!(
        reply.body,
        "{\"status\":\"KO\",\"query\":null,\"data\":\"ensure you post to the /query endpoint with valid json\",\"score\":\"0.0\"}"
    );
}

#[test]
fn get_on_query_path_answers_404() {
    let reply = match route("GET", "/query", Some(10), &default_options()) {
        Routed::Reply(reply) => reply,
        Routed::Query => panic!("only POST reaches the query pipeline"),
    };
    assert_eq!(reply.status, 404);
}
