//! The request-summary parser, the query splitter, the key-value stores and
//! the router tables.
use wgp::config::{LevelFilter, LogConfig};
use wgp::context::{base_path_of, extract_request_summary, parse_query, str_eq, Context};
use wgp::http::{Method, Status};
use wgp::kv::KvList;
use wgp::types::{ErrorResponseBody, LoginRequestBody, NTorEncryptMessage, NTorInitRequestBody};
use wgp::{bytes_eq, string_to_array32, vec_to_array32};

#[test]
fn base_path_strips_query_suffix() {
    assert_eq!(base_path_of("/poems?id={}"), "/poems");
    assert_eq!(base_path_of("/poems"), "/poems");
    assert_eq!(base_path_of("?x=1"), "");
    assert_eq!(base_path_of("/a?b?c"), "/a");
}

#[test]
fn query_parsing_naive_splitting() {
    let params = parse_query("id=2&name=frost");
    assert_eq!(params.get(&"id".to_string()), Some(&"2".to_string()));
    assert_eq!(params.get(&"name".to_string()), Some(&"frost".to_string()));
    assert_eq!(params.get(&"missing".to_string()), None);
}

#[test]
fn query_parsing_later_duplicate_wins() {
    let params = parse_query("a=1&a=3");
    assert_eq!(params.get(&"a".to_string()), Some(&"3".to_string()));
}

#[test]
fn query_parsing_edge_shapes() {
    // a segment without '=' keeps an empty value; an empty query names ("","")
    let params = parse_query("flag");
    assert_eq!(params.get(&"flag".to_string()), Some(&String::new()));
    let params = parse_query("");
    assert_eq!(params.get(&String::new()), Some(&String::new()));
    // no percent-decoding happens
    let params = parse_query("k=%20v");
    assert_eq!(params.get(&"k".to_string()), Some(&"%20v".to_string()));
}

#[test]
fn summary_parses_method_path_and_params() {
    let rs = extract_request_summary("GET /poems?id=2 HTTP/1.1").unwrap();
    assert_eq!(rs.method, Method::Get);
    assert_eq!(rs.path, "/poems");
    assert_eq!(rs.params.get(&"id".to_string()), Some(&"2".to_string()));
}

#[test]
fn summary_trims_trailing_commas() {
    let rs = extract_request_summary("POST /login,").unwrap();
    assert_eq!(rs.method, Method::Post);
    assert_eq!(rs.path, "/login");
}

#[test]
fn summary_rejects_unknown_method_and_short_input() {
    assert_eq!(
        extract_request_summary("PATCH /x").unwrap_err(),
        "Unsupported method"
    );
    assert_eq!(
        extract_request_summary("GET").unwrap_err(),
        "Invalid request summary"
    );
    assert_eq!(
        extract_request_summary("").unwrap_err(),
        "Invalid request summary"
    );
}

#[test]
fn summary_accepts_all_methods() {
    for (word, m) in [
        ("GET", Method::Get),
        ("POST", Method::Post),
        ("PUT", Method::Put),
        ("DELETE", Method::Delete),
        ("OPTIONS", Method::Options),
    ] {
        let rs = extract_request_summary(&format!("{} /x", word)).unwrap();
        assert_eq!(rs.method, m);
    }
}

#[test]
fn kv_list_set_get_overwrite() {
    let mut kv: KvList<String> = KvList::new();
    assert_eq!(kv.len(), 0);
    kv.set("a".to_string(), "1".to_string());
    kv.set("b".to_string(), "2".to_string());
    kv.set("a".to_string(), "3".to_string());
    assert_eq!(kv.len(), 2);
    assert_eq!(kv.get(&"a".to_string()), Some(&"3".to_string()));
    assert_eq!(kv.get(&"b".to_string()), Some(&"2".to_string()));
    assert!(kv.contains_key(&"a".to_string()));
    assert!(!kv.contains_key(&"c".to_string()));
}

#[test]
fn context_scratchpad_and_bodies() {
    let rs = extract_request_summary("GET /profile").unwrap();
    let mut ctx = Context::new(rs, KvList::new(), b"body".to_vec());
    assert_eq!(ctx.method(), Method::Get);
    assert_eq!(ctx.path(), "/profile");
    assert_eq!(ctx.get_request_body(), &b"body".to_vec());
    assert!(ctx.get_response_body().is_none());
    ctx.set("username".to_string(), "tester".to_string());
    assert_eq!(ctx.get(&"username".to_string()), Some(&"tester".to_string()));
    ctx.set_request_body(b"clear".to_vec());
    assert_eq!(ctx.get_request_body(), &b"clear".to_vec());
    ctx.set_response_body(b"out".to_vec());
    assert_eq!(ctx.get_response_body(), &Some(b"out".to_vec()));
}

#[test]
fn str_and_bytes_equality() {
    assert!(str_eq("abc", "abc"));
    assert!(!str_eq("abc", "abd"));
    assert!(!str_eq("abc", "ab"));
    assert!(bytes_eq(&vec![1, 2], &vec![1, 2]));
    assert!(!bytes_eq(&vec![1, 2], &vec![1, 3]));
    assert!(!bytes_eq(&vec![1], &vec![1, 2]));
}

#[test]
fn array32_conversions() {
    assert_eq!(vec_to_array32(vec![5u8; 32]), [5u8; 32]);
    assert_eq!(vec_to_array32(vec![5u8; 31]), [0u8; 32]);
    let s: String = "a".repeat(32);
    assert_eq!(string_to_array32(s), Some([b'a'; 32]));
    assert_eq!(string_to_array32("short".to_string()), None);
}

#[test]
fn status_codes_on_the_wire() {
    assert_eq!(Status::Okay.code(), 200);
    assert_eq!(Status::NoContent.code(), 204);
    assert_eq!(Status::BadRequest.code(), 400);
    assert_eq!(Status::Unauthorized.code(), 401);
    assert_eq!(Status::NotFound.code(), 404);
    assert_eq!(Status::MethodNotAllowed.code(), 405);
    assert_eq!(Status::InternalServerError.code(), 500);
}

#[test]
fn log_level_words() {
    let cfg = |level: &str| LogConfig {
        path: "console".to_string(),
        level: level.to_string(),
    };
    assert_eq!(cfg("info").to_level_filter(), Some(LevelFilter::Info));
    assert_eq!(cfg("DEBUG").to_level_filter(), Some(LevelFilter::Debug));
    assert_eq!(cfg("Warning").to_level_filter(), Some(LevelFilter::Warn));
    assert_eq!(cfg("error").to_level_filter(), Some(LevelFilter::Error));
    assert_eq!(cfg("trace").to_level_filter(), Some(LevelFilter::Trace));
    assert_eq!(cfg("off").to_level_filter(), Some(LevelFilter::Off));
    assert_eq!(cfg("bogus").to_level_filter(), None);
}

#[test]
fn json_emission_matches_serde_json() {
    let body = ErrorResponseBody {
        error: "quote \" backslash \\ newline \n dash é 😊".to_string(),
    }
    .to_bytes();
    let value: serde_json::Value = serde_json::from_slice(&body).unwrap();
    assert_eq!(
        value.get("error").unwrap().as_str().unwrap(),
        "quote \" backslash \\ newline \n dash é 😊"
    );
}

#[test]
fn json_encrypt_message_round_trips_through_serde() {
    let msg = NTorEncryptMessage {
        nonce: [9u8; 12],
        encrypted: vec![1, 2, 255],
    };
    let bytes = msg.to_bytes();
    let parsed = NTorEncryptMessage::from_bytes(&bytes).unwrap();
    assert_eq!(parsed.nonce, [9u8; 12]);
    assert_eq!(parsed.encrypted, vec![1, 2, 255]);
    // and serde_json agrees on the shape
    let value: serde_json::Value = serde_json::from_slice(&bytes).unwrap();
    assert_eq!(value.get("nonce").unwrap().as_array().unwrap().len(), 12);
}

#[test]
fn request_bodies_reject_malformed_json() {
    assert!(LoginRequestBody::from_bytes(&b"not json".to_vec()).is_none());
    assert!(LoginRequestBody::from_bytes(&b"{\"username\":\"a\"}".to_vec()).is_none());
    assert!(NTorInitRequestBody::from_bytes(&b"{}".to_vec()).is_none());
    // a nonce of the wrong length is refused
    let bad = b"{\"nonce\":[1,2,3],\"encrypted\":[]}".to_vec();
    assert!(NTorEncryptMessage::from_bytes(&bad).is_none());
}
