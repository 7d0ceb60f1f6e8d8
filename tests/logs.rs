use lottalogs::services::query::{assemble_match, assemble_query, BackendQuery, MatchClause};
use lottalogs::services::search::{
    check_status, map_response, search_outcome, BackendFailure, ElasticsearchService, EsHit,
    EsHits, EsHitsTotal, EsResponse, EsSource,
};
use lottalogs::views::logs::{LogResponse, LogsQueryParameters};

fn no_params() -> LogsQueryParameters {
    LogsQueryParameters {
        search_text: None,
        index: None,
        size: None,
        min_timestamp: None,
        max_timestamp: None,
    }
}

fn one_hit_response() -> EsResponse {
    EsResponse {
        hits: EsHits {
            hits: vec![EsHit {
                id: "1".to_string(),
                index: "logs".to_string(),
                source: EsSource {
                    message: "Test log message".to_string(),
                    host: "localhost".to_string(),
                    timestamp: "2023-10-01T00:00:00Z".to_string(),
                },
            }],
            total: EsHitsTotal {
                value: 1,
                relation: "eq".to_string(),
            },
        },
    }
}

fn hit(id: &str, message: &str, timestamp: &str) -> EsHit {
    EsHit {
        id: id.to_string(),
        index: "app-logs".to_string(),
        source: EsSource {
            message: message.to_string(),
            host: "web-1".to_string(),
            timestamp: timestamp.to_string(),
        },
    }
}

fn assert_same_response(a: &LogResponse, b: &LogResponse) {
    assert_eq!(a.total, b.total);
    assert_eq!(a.messages.len(), b.messages.len());
    for (x, y) in a.messages.iter().zip(b.messages.iter()) {
        assert_eq!(x.message, y.message);
        assert_eq!(x.host, y.host);
        assert_eq!(x.index, y.index);
        assert_eq!(x.timestamp, y.timestamp);
        assert_eq!(x.id, y.id);
    }
}

#[test]
fn defaults_resolve_every_missing_field() {
    let p = no_params().with_defaults();
    assert_eq!(p.search_text.as_deref(), Some(""));
    assert_eq!(p.index.as_deref(), Some("**"));
    assert_eq!(p.size, Some(100));
    assert_eq!(p.min_timestamp.as_deref(), Some("1970-01-01T00:00:00Z"));
    assert_eq!(p.max_timestamp.as_deref(), Some("2040-01-01T00:00:00Z"));
}

#[test]
fn defaults_keep_given_values() {
    let p = LogsQueryParameters {
        search_text: Some("timeout".to_string()),
        index: Some("app-*".to_string()),
        size: Some(5),
        min_timestamp: Some("2023-10-01T00:00:00Z".to_string()),
        max_timestamp: Some("2023-10-02T00:00:00Z".to_string()),
    }
    .with_defaults();
    assert_eq!(p.search_text.as_deref(), Some("timeout"));
    assert_eq!(p.index.as_deref(), Some("app-*"));
    assert_eq!(p.size, Some(5));
    assert_eq!(p.min_timestamp.as_deref(), Some("2023-10-01T00:00:00Z"));
    assert_eq!(p.max_timestamp.as_deref(), Some("2023-10-02T00:00:00Z"));
}

#[test]
fn defaults_fill_each_field_on_its_own() {
    let mut p = no_params();
    p.search_text = Some("disk".to_string());
    p.min_timestamp = Some("2023-01-01T00:00:00Z".to_string());
    let p = p.with_defaults();
    assert_eq!(p.search_text.as_deref(), Some("disk"));
    assert_eq!(p.index.as_deref(), Some("**"));
    assert_eq!(p.size, Some(100));
    assert_eq!(p.min_timestamp.as_deref(), Some("2023-01-01T00:00:00Z"));
    assert_eq!(p.max_timestamp.as_deref(), Some("2040-01-01T00:00:00Z"));
}

#[test]
fn absent_search_text_matches_all() {
    let q = BackendQuery::from_params(&no_params().with_defaults());
    assert!(matches!(q.must, MatchClause::MatchAll));
}

#[test]
fn empty_search_text_matches_all() {
    let mut p = no_params();
    p.search_text = Some(String::new());
    let q = BackendQuery::from_params(&p.with_defaults());
    assert!(matches!(q.must, MatchClause::MatchAll));
    assert_eq!(q.must.to_json(), "{\"match_all\":{}}");
}

#[test]
fn search_text_matches_message_field_with_wildcards() {
    let mut p = no_params();
    p.search_text = Some("error".to_string());
    let q = BackendQuery::from_params(&p.with_defaults());
    match &q.must {
        MatchClause::Match { field, query } => {
            assert_eq!(field, "message");
            assert_eq!(query, "*error*");
        }
        MatchClause::MatchAll => panic!("expected a match on the message field"),
    }
    assert_eq!(
        q.must.to_json(),
        "{\"match\":{\"message\":{\"query\":\"*error*\"}}}"
    );
}

#[test]
fn wildcards_in_search_text_are_not_escaped() {
    let q = MatchClause::for_text("a*b?");
    match q {
        MatchClause::Match { query, .. } => assert_eq!(query, "*a*b?*"),
        MatchClause::MatchAll => panic!("expected a match on the message field"),
    }
}

#[test]
fn default_query_document() {
    let q = BackendQuery::from_params(&no_params().with_defaults());
    assert_eq!(q.index, "**");
    assert_eq!(q.size, 100);
    assert_eq!(
        q.to_json(),
        "{\"query\":{\"bool\":{\"must\":{\"match_all\":{}},\"filter\":[{\"range\":{\"timestamp\":{\"gt\":\"1970-01-01T00:00:00Z\",\"lt\":\"2040-01-01T00:00:00Z\"}}}]}},\"size\":100,\"sort\":[{\"timestamp\":{\"order\":\"desc\"}}]}"
    );
}

#[test]
fn query_document_is_valid_json_with_expected_shape() {
    let mut p = no_params();
    p.search_text = Some("test".to_string());
    p.min_timestamp = Some("2023-10-01T00:00:00Z".to_string());
    let q = BackendQuery::from_params(&p.with_defaults());
    let v: serde_json::Value = serde_json::from_str(&q.to_json()).unwrap();
    assert_eq!(v["query"]["bool"]["must"]["match"]["message"]["query"], "*test*");
    assert_eq!(
        v["query"]["bool"]["filter"][0]["range"]["timestamp"]["gt"],
        "2023-10-01T00:00:00Z"
    );
    assert_eq!(
        v["query"]["bool"]["filter"][0]["range"]["timestamp"]["lt"],
        "2040-01-01T00:00:00Z"
    );
    assert_eq!(v["size"], 100);
    assert_eq!(v["sort"][0]["timestamp"]["order"], "desc");
}

#[test]
fn quotes_in_search_text_are_escaped_in_json() {
    let q = MatchClause::for_text("say \"hi\"\\");
    assert_eq!(
        q.to_json(),
        "{\"match\":{\"message\":{\"query\":\"*say \\\"hi\\\"\\\\*\"}}}"
    );
}

#[test]
fn size_zero_is_kept() {
    let mut p = no_params();
    p.size = Some(0);
    let q = BackendQuery::from_params(&p.with_defaults());
    assert_eq!(q.size, 0);
    assert!(q.to_json().contains(",\"size\":0,"));
}

#[test]
fn largest_size_renders_in_full() {
    let mut p = no_params();
    p.size = Some(u64::MAX);
    let q = BackendQuery::from_params(&p.with_defaults());
    assert!(q.to_json().contains(",\"size\":18446744073709551615,"));
}

#[test]
fn inverted_time_range_is_passed_through() {
    let mut p = no_params();
    p.min_timestamp = Some("2030-01-01T00:00:00Z".to_string());
    p.max_timestamp = Some("2020-01-01T00:00:00Z".to_string());
    let q = BackendQuery::from_params(&p.with_defaults());
    assert_eq!(q.min_timestamp, "2030-01-01T00:00:00Z");
    assert_eq!(q.max_timestamp, "2020-01-01T00:00:00Z");
}

#[test]
fn one_hit_maps_to_one_message() {
    let r = search_outcome(200, Ok(one_hit_response())).unwrap();
    assert_eq!(r.total, 1);
    assert_eq!(r.messages.len(), 1);
    let m = &r.messages[0];
    assert_eq!(m.id, "1");
    assert_eq!(m.index, "logs");
    assert_eq!(m.message, "Test log message");
    assert_eq!(m.host, "localhost");
    assert_eq!(m.timestamp, "2023-10-01T00:00:00Z");
}

#[test]
fn hits_keep_backend_order_and_total() {
    let es = EsResponse {
        hits: EsHits {
            hits: vec![
                hit("b", "second", "2023-10-02T00:00:00Z"),
                hit("a", "first", "2023-10-01T00:00:00Z"),
            ],
            total: EsHitsTotal {
                value: 42,
                relation: "gte".to_string(),
            },
        },
    };
    let r = map_response(&es);
    assert_eq!(r.total, 42);
    assert_eq!(r.messages.len(), 2);
    assert_eq!(r.messages[0].id, "b");
    assert_eq!(r.messages[0].message, "second");
    assert_eq!(r.messages[0].index, "app-logs");
    assert_eq!(r.messages[1].id, "a");
    assert_eq!(r.messages[1].timestamp, "2023-10-01T00:00:00Z");
}

#[test]
fn no_hits_still_reports_total() {
    let es = EsResponse {
        hits: EsHits {
            hits: vec![],
            total: EsHitsTotal {
                value: 7,
                relation: "eq".to_string(),
            },
        },
    };
    let r = search_outcome(200, Ok(es)).unwrap();
    assert!(r.messages.is_empty());
    assert_eq!(r.total, 7);
}

#[test]
fn failed_status_gives_backend_failure() {
    let r = search_outcome(500, Ok(one_hit_response()));
    assert!(matches!(r, Err(BackendFailure::Status(500))));
}

#[test]
fn unreadable_body_gives_backend_failure() {
    let r = search_outcome(200, Err("missing field `hits`".to_string()));
    match r {
        Err(BackendFailure::Transport(d)) => assert_eq!(d, "missing field `hits`"),
        _ => panic!("expected a transport failure"),
    }
}

#[test]
fn health_follows_status() {
    assert!(check_status(200).is_ok());
    assert!(check_status(204).is_ok());
    assert!(check_status(299).is_ok());
    assert!(matches!(check_status(199), Err(BackendFailure::Status(199))));
    assert!(matches!(check_status(300), Err(BackendFailure::Status(300))));
    assert!(matches!(check_status(503), Err(BackendFailure::Status(503))));
}

#[test]
fn repeated_search_gives_identical_result() {
    let mut p = no_params();
    p.search_text = Some("error".to_string());
    let q1 = BackendQuery::from_params(&p.clone().with_defaults());
    let q2 = BackendQuery::from_params(&p.with_defaults());
    assert_eq!(q1.to_json(), q2.to_json());
    assert_eq!(q1.index, q2.index);
    let r1 = search_outcome(200, Ok(one_hit_response())).unwrap();
    let r2 = search_outcome(200, Ok(one_hit_response())).unwrap();
    assert_same_response(&r1, &r2);
}

#[test]
fn service_accepts_a_node_address() {
    assert!(ElasticsearchService::new("http://localhost:9200").is_ok());
}

#[test]
fn service_rejects_a_malformed_address() {
    assert!(ElasticsearchService::new("not a url").is_err());
}

#[test]
fn assembled_match_places_its_parts() {
    assert_eq!(
        assemble_match("\"message\"", "\"*x*\""),
        "{\"match\":{\"message\":{\"query\":\"*x*\"}}}"
    );
}

#[test]
fn assembled_query_places_its_parts() {
    assert_eq!(
        assemble_query("{\"match_all\":{}}", "\"a\"", "\"b\"", 7),
        "{\"query\":{\"bool\":{\"must\":{\"match_all\":{}},\"filter\":[{\"range\":{\"timestamp\":{\"gt\":\"a\",\"lt\":\"b\"}}}]}},\"size\":7,\"sort\":[{\"timestamp\":{\"order\":\"desc\"}}]}"
    );
}

#[test]
fn control_characters_in_bounds_are_escaped() {
    let mut p = no_params();
    p.min_timestamp = Some("a\nb".to_string());
    let q = BackendQuery::from_params(&p.with_defaults());
    assert!(q.to_json().contains("\"gt\":\"a\\nb\""));
}
