use gcm::message::priority_lowercase;
use gcm::Message;
use gcm::Priority;

fn ids(v: &[&str]) -> Vec<String> {
    v.iter().map(|s| s.to_string()).collect()
}

#[test]
fn minimal_document() {
    let doc = Message::new(ids(&["abc"])).to_json();
    assert_eq!(doc, "{\"registration_ids\":[\"abc\"]}");
}

#[test]
fn full_chain_scenario() {
    let doc = Message::new(ids(&["tok1", "tok2"]))
        .priority(Priority::High)
        .time_to_live(2419200)
        .dry_run(true)
        .to_json();
    assert_eq!(
        doc,
        "{\"registration_ids\":[\"tok1\",\"tok2\"],\"priority\":\"high\",\"time_to_live\":2419200,\"dry_run\":true}"
    );
}

#[test]
fn priority_high_rendered() {
    let doc = Message::new(ids(&["a"])).priority(Priority::High).to_json();
    assert_eq!(doc, "{\"registration_ids\":[\"a\"],\"priority\":\"high\"}");
}

#[test]
fn priority_normal_rendered() {
    let doc = Message::new(ids(&["a"])).priority(Priority::Normal).to_json();
    assert_eq!(doc, "{\"registration_ids\":[\"a\"],\"priority\":\"normal\"}");
}

#[test]
fn priority_absent_omitted() {
    let doc = Message::new(ids(&["a"])).dry_run(false).to_json();
    assert!(!doc.contains("priority"));
    assert_eq!(doc, "{\"registration_ids\":[\"a\"],\"dry_run\":false}");
}

#[test]
fn priority_encoder_strings() {
    assert_eq!(priority_lowercase(&Some(Priority::High)), "high");
    assert_eq!(priority_lowercase(&Some(Priority::Normal)), "normal");
    assert_eq!(priority_lowercase(&None), "normal");
}

#[test]
fn collapse_key_set() {
    let doc = Message::new(ids(&["a"])).collapse_key("updates".to_string()).to_json();
    assert_eq!(doc, "{\"registration_ids\":[\"a\"],\"collapse_key\":\"updates\"}");
}

#[test]
fn content_available_set() {
    let doc = Message::new(ids(&["a"])).content_available(true).to_json();
    assert_eq!(doc, "{\"registration_ids\":[\"a\"],\"content_available\":true}");
}

#[test]
fn delay_while_idle_set() {
    let doc = Message::new(ids(&["a"])).delay_while_idle(false).to_json();
    assert_eq!(doc, "{\"registration_ids\":[\"a\"],\"delay_while_idle\":false}");
}

#[test]
fn restricted_package_name_set() {
    let doc = Message::new(ids(&["a"]))
        .restricted_package_name("com.example.app".to_string())
        .to_json();
    assert_eq!(
        doc,
        "{\"registration_ids\":[\"a\"],\"restricted_package_name\":\"com.example.app\"}"
    );
}

#[test]
fn time_to_live_zero_and_negative() {
    let doc = Message::new(ids(&["a"])).time_to_live(0).to_json();
    assert_eq!(doc, "{\"registration_ids\":[\"a\"],\"time_to_live\":0}");
    let doc = Message::new(ids(&["a"])).time_to_live(-45).to_json();
    assert_eq!(doc, "{\"registration_ids\":[\"a\"],\"time_to_live\":-45}");
}

#[test]
fn time_to_live_extremes() {
    let doc = Message::new(ids(&["a"])).time_to_live(i32::MAX).to_json();
    assert_eq!(doc, "{\"registration_ids\":[\"a\"],\"time_to_live\":2147483647}");
    let doc = Message::new(ids(&["a"])).time_to_live(i32::MIN).to_json();
    assert_eq!(doc, "{\"registration_ids\":[\"a\"],\"time_to_live\":-2147483648}");
}

#[test]
fn setter_overwrites_previous_value() {
    let doc = Message::new(ids(&["a"]))
        .collapse_key("first".to_string())
        .collapse_key("second".to_string())
        .to_json();
    assert_eq!(doc, "{\"registration_ids\":[\"a\"],\"collapse_key\":\"second\"}");
}

#[test]
fn key_order_fixed_regardless_of_call_order() {
    let a = Message::new(ids(&["a"])).dry_run(true).priority(Priority::High).to_json();
    let b = Message::new(ids(&["a"])).priority(Priority::High).dry_run(true).to_json();
    assert_eq!(a, b);
    assert_eq!(a, "{\"registration_ids\":[\"a\"],\"priority\":\"high\",\"dry_run\":true}");
}

#[test]
fn empty_registration_ids() {
    let doc = Message::new(Vec::new()).to_json();
    assert_eq!(doc, "{\"registration_ids\":[]}");
}

#[test]
fn data_round_trip() {
    let mut map = serde_json::Map::new();
    map.insert("msg".to_string(), serde_json::Value::String("hi".to_string()));
    let message = Message::new(ids(&["abc"])).data(&map);
    let doc = message.to_json();
    assert_eq!(doc, "{\"registration_ids\":[\"abc\"],\"data\":{\"msg\":\"hi\"}}");
    // mutating the caller's map after the copy must not reach the message
    map.insert("msg".to_string(), serde_json::Value::String("changed".to_string()));
    map.insert("extra".to_string(), serde_json::Value::Bool(true));
    assert_eq!(message.to_json(), doc);
}

#[test]
fn empty_data_map() {
    let map = serde_json::Map::new();
    let doc = Message::new(ids(&["a"])).data(&map).to_json();
    assert_eq!(doc, "{\"registration_ids\":[\"a\"],\"data\":{}}");
}

#[test]
fn data_rendering_matches_serde_json() {
    let mut inner = serde_json::Map::new();
    inner.insert("deep".to_string(), serde_json::Value::Null);
    let mut map = serde_json::Map::new();
    map.insert("text".to_string(), serde_json::Value::String("v".to_string()));
    map.insert("count".to_string(), serde_json::Value::from(7));
    map.insert("flag".to_string(), serde_json::Value::Bool(false));
    map.insert("ratio".to_string(), serde_json::Value::from(1.5));
    map.insert(
        "list".to_string(),
        serde_json::Value::Array(vec![serde_json::Value::from(1), serde_json::Value::from(2)]),
    );
    map.insert("nested".to_string(), serde_json::Value::Object(inner));
    let doc = Message::new(ids(&["a"])).data(&map).to_json();
    let expected = format!(
        "{{\"registration_ids\":[\"a\"],\"data\":{}}}",
        serde_json::to_string(&map).unwrap()
    );
    assert_eq!(doc, expected);
}

#[test]
fn build_is_identity_and_idempotent() {
    let message = Message::new(ids(&["t"])).priority(Priority::Normal);
    let doc0 = message.to_json();
    let message = message.build();
    let doc1 = message.to_json();
    let message = message.build();
    let doc2 = message.to_json();
    assert_eq!(doc0, doc1);
    assert_eq!(doc1, doc2);
}

#[test]
fn string_escaping_exact() {
    let doc = Message::new(ids(&["a\"b"])).to_json();
    assert_eq!(doc, "{\"registration_ids\":[\"a\\\"b\"]}");
    let doc = Message::new(ids(&["a\\b"])).to_json();
    assert_eq!(doc, "{\"registration_ids\":[\"a\\\\b\"]}");
    let doc = Message::new(ids(&["a\nb\tc"])).to_json();
    assert_eq!(doc, "{\"registration_ids\":[\"a\\nb\\tc\"]}");
    let doc = Message::new(ids(&["a\u{1}b"])).to_json();
    assert_eq!(doc, "{\"registration_ids\":[\"a\\u0001b\"]}");
    let doc = Message::new(ids(&["caf\u{e9}"])).to_json();
    assert_eq!(doc, "{\"registration_ids\":[\"caf\u{e9}\"]}");
}

#[test]
fn string_escaping_matches_serde_json() {
    let list = ids(&["a\"b\\c\nd\te\u{8}f\u{c}g\rh\u{1f}i caf\u{e9}"]);
    let doc = Message::new(list.clone()).to_json();
    let expected = format!(
        "{{\"registration_ids\":{}}}",
        serde_json::to_string(&list).unwrap()
    );
    assert_eq!(doc, expected);
}

#[test]
fn every_field_set_at_once() {
    let mut map = serde_json::Map::new();
    map.insert("k".to_string(), serde_json::Value::String("v".to_string()));
    let doc = Message::new(ids(&["r1", "r2"]))
        .collapse_key("ck".to_string())
        .priority(Priority::Normal)
        .content_available(true)
        .delay_while_idle(false)
        .time_to_live(3600)
        .restricted_package_name("pkg".to_string())
        .dry_run(true)
        .data(&map)
        .build()
        .to_json();
    assert_eq!(
        doc,
        "{\"registration_ids\":[\"r1\",\"r2\"],\"collapse_key\":\"ck\",\"priority\":\"normal\",\"content_available\":true,\"delay_while_idle\":false,\"time_to_live\":3600,\"restricted_package_name\":\"pkg\",\"dry_run\":true,\"data\":{\"k\":\"v\"}}"
    );
}
