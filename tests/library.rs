use brain_ai::calls::{
    created_id, found_or_none, graph_neighbors_endpoint, is_healthy, memory_endpoint,
    memory_strength_endpoint,
};
use brain_ai::error::BrainAIError;
use brain_ai::json::{list_member, response_id, text_member};
use brain_ai::kinds::{FeedbackType, MemoryType};
use brain_ai::registry::ClientRegistry;
use brain_ai::request::{
    bearer_header, check_response, request_headers, request_url, status_is_success, HttpMethod,
};
use brain_ai::vectors::paired_len;

fn other_message(e: &BrainAIError) -> String {
    match e {
        BrainAIError::Other(m) => m.clone(),
        _ => panic!("expected a described failure"),
    }
}

#[test]
fn memory_type_wire_names() {
    assert_eq!(MemoryType::Episodic.wire_name(), "episodic");
    assert_eq!(MemoryType::Semantic.wire_name(), "semantic");
    assert_eq!(MemoryType::Procedural.wire_name(), "procedural");
    assert_eq!(MemoryType::Emotional.wire_name(), "emotional");
}

#[test]
fn feedback_type_wire_names() {
    assert_eq!(FeedbackType::Positive.wire_name(), "positive");
    assert_eq!(FeedbackType::Negative.wire_name(), "negative");
    assert_eq!(FeedbackType::Neutral.wire_name(), "neutral");
}

#[test]
fn parse_known_methods() {
    for name in ["GET", "POST", "PUT", "PATCH", "DELETE"] {
        let m = HttpMethod::parse(name).ok().unwrap();
        assert_eq!(m.name(), name);
    }
    assert_eq!(HttpMethod::parse("PATCH").ok(), Some(HttpMethod::Patch));
}

#[test]
fn parse_unknown_method() {
    let e = HttpMethod::parse("get").err().unwrap();
    assert_eq!(other_message(&e), "Unsupported method: get");
    let e = HttpMethod::parse("HEAD").err().unwrap();
    assert_eq!(other_message(&e), "Unsupported method: HEAD");
}

#[test]
fn url_drops_trailing_slashes() {
    assert_eq!(request_url("http://localhost:8000", "api/status"), "http://localhost:8000/api/status");
    assert_eq!(request_url("http://localhost:8000///", "api/status"), "http://localhost:8000/api/status");
    assert_eq!(request_url("http://h/", "/api/memory"), "http://h//api/memory");
    assert_eq!(request_url("", "x"), "/x");
    assert_eq!(request_url("///", "x"), "/x");
}

#[test]
fn bearer_header_value() {
    assert_eq!(bearer_header("SECRET-REDACTED"), "Bearer SECRET-REDACTED");
    assert_eq!(bearer_header(""), "Bearer ");
}

#[test]
fn headers_without_key() {
    let h = request_headers(None);
    assert_eq!(h, vec![("Content-Type".to_string(), "application/json".to_string())]);
}

#[test]
fn headers_with_key() {
    let h = request_headers(Some("k1"));
    assert_eq!(
        h,
        vec![
            ("Content-Type".to_string(), "application/json".to_string()),
            ("Authorization".to_string(), "Bearer k1".to_string()),
        ]
    );
}

#[test]
fn success_range() {
    assert!(!status_is_success(199));
    assert!(status_is_success(200));
    assert!(status_is_success(204));
    assert!(status_is_success(299));
    assert!(!status_is_success(300));
    assert!(!status_is_success(404));
}

#[test]
fn response_success_keeps_body() {
    let r = check_response(200, Ok("{\"id\":\"a\"}".to_string()));
    assert_eq!(r.ok().unwrap(), "{\"id\":\"a\"}");
}

#[test]
fn response_unreadable_body() {
    let r = check_response(201, Err("broken pipe".to_string()));
    assert_eq!(other_message(&r.err().unwrap()), "Failed to read response: broken pipe");
}

#[test]
fn response_failure_status() {
    match check_response(500, Ok("boom".to_string())) {
        Err(BrainAIError::HttpError { status, message }) => {
            assert_eq!(status, 500);
            assert_eq!(message, "boom");
        }
        _ => panic!("expected an HTTP error"),
    }
    match check_response(404, Err("gone".to_string())) {
        Err(BrainAIError::HttpError { status, message }) => {
            assert_eq!(status, 404);
            assert_eq!(message, "Unknown error");
        }
        _ => panic!("expected an HTTP error"),
    }
}

#[test]
fn endpoints_of_records() {
    assert_eq!(memory_endpoint("m1"), "/api/memory/m1");
    assert_eq!(memory_strength_endpoint("m1"), "/api/memory/m1/strength");
    assert_eq!(graph_neighbors_endpoint("n7"), "/api/graph/neighbors/n7");
}

#[test]
fn lookup_not_found_is_none() {
    let found: Result<u32, BrainAIError> = Ok(5);
    assert_eq!(found_or_none(found).ok().unwrap(), Some(5));
    let missing: Result<u32, BrainAIError> =
        Err(BrainAIError::HttpError { status: 404, message: "no".to_string() });
    assert_eq!(found_or_none(missing).ok().unwrap(), None);
    let failed: Result<u32, BrainAIError> =
        Err(BrainAIError::HttpError { status: 500, message: "no".to_string() });
    assert!(matches!(found_or_none(failed), Err(BrainAIError::HttpError { status: 500, .. })));
    let timed_out: Result<u32, BrainAIError> = Err(BrainAIError::Timeout);
    assert!(matches!(found_or_none(timed_out), Err(BrainAIError::Timeout)));
}

#[test]
fn created_id_needs_id() {
    assert_eq!(created_id(Some("abc".to_string())).ok().unwrap(), "abc");
    let e = created_id(None).err().unwrap();
    assert_eq!(other_message(&e), "Invalid response: missing id");
}

#[test]
fn health_from_status() {
    assert!(is_healthy(Ok(Some("healthy".to_string()))));
    assert!(!is_healthy(Ok(Some("degraded".to_string()))));
    assert!(!is_healthy(Ok(None)));
    assert!(!is_healthy(Err(BrainAIError::Timeout)));
}

#[test]
fn vectors_of_equal_length() {
    assert_eq!(paired_len(&[1, 2, 3], &[4, 5, 6]).ok(), Some(3));
    let empty: [u8; 0] = [];
    assert_eq!(paired_len(&empty, &empty).ok(), Some(0));
}

#[test]
fn vectors_of_different_length() {
    let e = paired_len(&[1.0, 2.0], &[1.0, 2.0, 3.0]).err().unwrap();
    assert_eq!(other_message(&e), "Vectors must have the same length");
}

#[test]
fn json_members() {
    let v: serde_json::Value =
        serde_json::from_str("{\"id\":\"x9\",\"n\":3,\"results\":[1,2],\"s\":\"t\"}").unwrap();
    assert_eq!(text_member(&v, "id"), Some("x9".to_string()));
    assert_eq!(text_member(&v, "n"), None);
    assert_eq!(text_member(&v, "missing"), None);
    assert_eq!(list_member(&v, "results").len(), 2);
    assert_eq!(list_member(&v, "s").len(), 0);
    assert_eq!(list_member(&v, "missing").len(), 0);
    assert_eq!(response_id(&v).ok().unwrap(), "x9");
}

#[test]
fn json_list_keeps_order() {
    let v: serde_json::Value =
        serde_json::from_str("{\"results\":[\"a\",{\"k\":1},3]}").unwrap();
    let items = list_member(&v, "results");
    assert_eq!(items.len(), 3);
    assert_eq!(items[0], serde_json::Value::from("a"));
    assert_eq!(items[1], serde_json::from_str::<serde_json::Value>("{\"k\":1}").unwrap());
    assert_eq!(items[2], serde_json::Value::from(3));
    let not_object: serde_json::Value = serde_json::from_str("[1,2]").unwrap();
    assert_eq!(list_member(&not_object, "results").len(), 0);
}

#[test]
fn json_answer_without_id() {
    let v: serde_json::Value = serde_json::from_str("{\"id\":7}").unwrap();
    let e = response_id(&v).err().unwrap();
    assert_eq!(other_message(&e), "Invalid response: missing id");
}

#[test]
fn registry_keeps_first_instance() {
    let mut r: ClientRegistry<u32> = ClientRegistry::new();
    assert!(r.get("a").is_none());
    assert!(r.get_instance("a", 1));
    assert!(!r.get_instance("a", 2));
    assert_eq!(r.get("a"), Some(&1));
    assert!(r.get_instance("b", 3));
    assert_eq!(r.get("b"), Some(&3));
}

#[test]
fn registry_remove_and_clear() {
    let mut r: ClientRegistry<u32> = ClientRegistry::new();
    r.get_instance("a", 1);
    r.get_instance("b", 2);
    r.get_instance("c", 3);
    r.remove_instance("b");
    assert_eq!(r.get("b"), None);
    assert_eq!(r.get("a"), Some(&1));
    assert_eq!(r.get("c"), Some(&3));
    r.remove_instance("zzz");
    assert_eq!(r.get("c"), Some(&3));
    assert!(r.get_instance("b", 4));
    assert_eq!(r.get("b"), Some(&4));
    r.clear_all();
    assert_eq!(r.get("a"), None);
    assert_eq!(r.get("c"), None);
}
