use vector_query::router::{
    invalid_body_reply, query_reply, route, search_category, Routed, ServiceOptions, BODY_LIMIT,
};
use vector_query::schema::ResponseDetails;

fn default_options() -> ServiceOptions {
    ServiceOptions { liveness_ok_status: false, category_from_request: false }
}

#[test]
fn hint_just_over_the_limit_is_rejected() {
    let reply = match route("POST", "/query", Some(BODY_LIMIT + 1), &default_options()) {
        Routed::Reply(reply) => reply,
        Routed::Query => panic!("an oversized hint must be rejected before any read"),
    };
    assert_eq!(reply.status, 413);
    assert_eq!(
        reply.body,
        "{\"status\":\"KO\",\"query\":null,\"data\":\"body too big\",\"score\":\"0.0\"}"
    );
}

#[test]
fn hint_at_the_limit_is_accepted() {
    assert!(matches!(
        route("POST", "/query", Some(BODY_LIMIT), &default_options()),
        Routed::Query
    ));
}

#[test]
fn missing_upper_hint_is_rejected() {
    let reply = match route("POST", "/query", None, &default_options()) {
        Routed::Reply(reply) => reply,
        Routed::Query => panic!("an unbounded hint must be rejected"),
    };
    assert_eq!(reply.status, 413);
}

#[test]
fn invalid_body_answers_400() {
    let reply = invalid_body_reply();
    assert_eq!(reply.status, 400);
    assert_eq!(
        reply.body,
        "{\"status\":\"KO\",\"query\":null,\"data\":\"invalid json body\",\"score\":\"0.0\"}"
    );
}

#[test]
fn ko_response_maps_to_500() {
    let r = ResponseDetails {
        status: "KO".to_string(),
        query: None,
        data: "qdrant connection refused".to_string(),
        score: "0.0".to_string(),
    };
    assert_eq!(query_reply(&r).status, 500);
}

#[test]
fn ok_response_maps_to_200() {
    let r = ResponseDetails {
        status: "OK".to_string(),
        query: Some("q".to_string()),
        data: "content".to_string(),
        score: "0.92".to_string(),
    };
    assert_eq!(query_reply(&r).status, 200);
}

#[test]
fn category_comes_from_configuration_by_default() {
    let c = search_category(&default_options(), "configured", "requested");
    assert_eq!(c, "configured");
}

#[test]
fn category_comes_from_request_under_option() {
    let options = ServiceOptions { liveness_ok_status: false, category_from_request: true };
    let c = search_category(&options, "configured", "requested");
    assert_eq!(c, "requested");
}

#[test]
fn default_keeps_long_standing_behaviour() {
    let options = ServiceOptions::default();
    assert!(!options.liveness_ok_status);
    assert!(!options.category_from_request);
}
