use base64::Engine;
use rule_engine::decode::decode_patterns;
use rule_engine::engine::{
    engine_check_response, engine_check_response_for_route, engine_clear_all_rules,
    engine_clear_route_rules, engine_load_route_rules, engine_load_rules, RuleEngine,
    DEFAULT_ROUTE,
};
use rule_engine::matcher::{LoadError, Matcher};
use rule_engine::registry::{prepare, RouteRegistry};

fn encode(json: &str) -> Vec<u8> {
    base64::engine::general_purpose::STANDARD
        .encode(json)
        .into_bytes()
}

#[test]
fn scenario_drop_table_routes() {
    let mut reg = RouteRegistry::new();
    assert_eq!(engine_load_route_rules(&mut reg, 1, &encode(r#"["DROP TABLE"]"#)), 0);
    assert_eq!(engine_check_response_for_route(&reg, 1, b"SELECT * WHERE x"), 0);
    assert_eq!(engine_check_response_for_route(&reg, 1, b"please DROP TABLE users"), 1);
    assert_eq!(engine_load_route_rules(&mut reg, 2, &encode("[]")), 0);
    assert_eq!(engine_check_response_for_route(&reg, 2, b"anything"), 0);
    assert_eq!(engine_clear_route_rules(&mut reg, 1), 0);
    assert_eq!(engine_check_response_for_route(&reg, 1, b"DROP TABLE"), 0);
}

#[test]
fn scenario_drop_table_shared_engine() {
    let engine = RuleEngine::new();
    assert_eq!(engine.load_route_rules(1, &encode(r#"["DROP TABLE"]"#)), 0);
    assert_eq!(engine.check_response_for_route(1, b"SELECT * WHERE x"), 0);
    assert_eq!(engine.check_response_for_route(1, b"please DROP TABLE users"), 1);
    assert_eq!(engine.load_route_rules(2, &encode("[]")), 0);
    assert_eq!(engine.check_response_for_route(2, b"anything"), 0);
    assert_eq!(engine.clear_route_rules(1), 0);
    assert_eq!(engine.check_response_for_route(1, b"DROP TABLE"), 0);
}

#[test]
fn loaded_patterns_match_exactly_substrings() {
    let mut reg = RouteRegistry::new();
    assert_eq!(
        engine_load_route_rules(&mut reg, 7, &encode(r#"["rm -rf", "DROP TABLE", "curl http"]"#)),
        0
    );
    assert_eq!(engine_check_response_for_route(&reg, 7, b"then rm -rf /"), 1);
    assert_eq!(engine_check_response_for_route(&reg, 7, b"curl http://x"), 1);
    assert_eq!(engine_check_response_for_route(&reg, 7, b"rm -r f"), 0);
    assert_eq!(engine_check_response_for_route(&reg, 7, b"drop table"), 0);
    assert_eq!(engine_check_response_for_route(&reg, 7, b""), 0);
    assert_eq!(reg.pattern_count(7), Some(3));
    assert!(reg.check(7, "xxDROP TABLEyy"));
    assert!(!reg.check(7, "DROP TABL"));
}

#[test]
fn reload_replaces_whole_rule_set() {
    let mut reg = RouteRegistry::new();
    assert_eq!(engine_load_route_rules(&mut reg, 3, &encode(r#"["alpha"]"#)), 0);
    assert_eq!(engine_load_route_rules(&mut reg, 3, &encode(r#"["beta", "gamma"]"#)), 0);
    assert_eq!(engine_check_response_for_route(&reg, 3, b"alpha"), 0);
    assert_eq!(engine_check_response_for_route(&reg, 3, b"a gamma ray"), 1);
    assert_eq!(reg.pattern_count(3), Some(2));
}

#[test]
fn clear_route_leaves_others() {
    let mut reg = RouteRegistry::new();
    assert_eq!(engine_load_route_rules(&mut reg, 1, &encode(r#"["x"]"#)), 0);
    assert_eq!(engine_load_route_rules(&mut reg, 2, &encode(r#"["x"]"#)), 0);
    assert_eq!(engine_clear_route_rules(&mut reg, 1), 0);
    assert_eq!(engine_clear_route_rules(&mut reg, 1), 0);
    assert_eq!(engine_check_response_for_route(&reg, 1, b"x"), 0);
    assert_eq!(engine_check_response_for_route(&reg, 2, b"x"), 1);
    assert_eq!(reg.pattern_count(1), None);
}

#[test]
fn clear_all_removes_every_route() {
    let mut reg = RouteRegistry::new();
    assert_eq!(engine_load_route_rules(&mut reg, 1, &encode(r#"["x"]"#)), 0);
    assert_eq!(engine_load_route_rules(&mut reg, 9, &encode(r#"["y"]"#)), 0);
    assert_eq!(engine_clear_all_rules(&mut reg), 0);
    assert_eq!(engine_check_response_for_route(&reg, 1, b"x"), 0);
    assert_eq!(engine_check_response_for_route(&reg, 9, b"y"), 0);
    let engine = RuleEngine::new();
    assert_eq!(engine.load_route_rules(4, &encode(r#"["x"]"#)), 0);
    assert_eq!(engine.clear_all_rules(), 0);
    assert_eq!(engine.check_response_for_route(4, b"x"), 0);
}

#[test]
fn unconfigured_route_reports_no_match() {
    let reg = RouteRegistry::new();
    assert_eq!(engine_check_response_for_route(&reg, 42, b"DROP TABLE"), 0);
    assert_eq!(engine_check_response(&reg, b"anything"), 0);
    assert!(reg.get(42).is_none());
    let engine = RuleEngine::new();
    assert_eq!(engine.check_response_for_route(u32::MAX, b"x"), 0);
}

#[test]
fn legacy_calls_share_default_route() {
    let mut reg = RouteRegistry::new();
    assert_eq!(engine_load_rules(&mut reg, &encode(r#"["evil"]"#)), 0);
    assert_eq!(engine_check_response_for_route(&reg, DEFAULT_ROUTE, b"so evil"), 1);
    assert_eq!(engine_check_response(&reg, b"so evil"), 1);
    assert_eq!(engine_load_route_rules(&mut reg, 0, &encode(r#"["good"]"#)), 0);
    assert_eq!(engine_check_response(&reg, b"so evil"), 0);
    assert_eq!(engine_check_response(&reg, b"good"), 1);
    let engine = RuleEngine::new();
    assert_eq!(engine.load_rules(&encode(r#"["evil"]"#)), 0);
    assert_eq!(engine.check_response_for_route(0, b"evil"), 1);
    assert_eq!(engine.check_response(b"evil"), 1);
}

#[test]
fn malformed_blobs_give_stage_codes() {
    let mut reg = RouteRegistry::new();
    assert_eq!(engine_load_route_rules(&mut reg, 1, b""), -1);
    assert_eq!(engine_load_route_rules(&mut reg, 1, &[0xff, 0xfe, 0x41]), -2);
    assert_eq!(engine_load_route_rules(&mut reg, 1, b"!!! not base64 !!!"), -2);
    assert_eq!(engine_load_route_rules(&mut reg, 1, &encode(r#"{"a": 1}"#)), -3);
    assert_eq!(engine_load_route_rules(&mut reg, 1, &encode("[1, 2]")), -3);
    assert_eq!(engine_load_route_rules(&mut reg, 1, &encode("not json")), -3);
    assert_eq!(engine_load_rules(&mut reg, b""), -1);
    let engine = RuleEngine::new();
    assert_eq!(engine.load_route_rules(1, b""), -1);
    assert_eq!(engine.load_route_rules(1, b"%%%"), -2);
    assert_eq!(engine.load_route_rules(1, &encode("\"str\"")), -3);
}

#[test]
fn failed_load_keeps_previous_rules() {
    let mut reg = RouteRegistry::new();
    assert_eq!(engine_load_route_rules(&mut reg, 5, &encode(r#"["keep"]"#)), 0);
    assert_eq!(engine_load_route_rules(&mut reg, 5, b"%%%"), -2);
    assert_eq!(engine_load_route_rules(&mut reg, 5, &encode("{}")), -3);
    assert_eq!(engine_check_response_for_route(&reg, 5, b"keep it"), 1);
    assert_eq!(engine_load_route_rules(&mut reg, 6, b""), -1);
    assert_eq!(engine_check_response_for_route(&reg, 6, b""), 0);
    assert!(reg.get(6).is_none());
}

#[test]
fn invalid_text_fails_open() {
    let mut reg = RouteRegistry::new();
    assert_eq!(engine_load_route_rules(&mut reg, 1, &encode(r#"["A"]"#)), 0);
    assert_eq!(engine_check_response_for_route(&reg, 1, &[b'A', 0xff]), 0);
    assert_eq!(engine_check_response_for_route(&reg, 1, b"A"), 1);
    let engine = RuleEngine::new();
    assert_eq!(engine.load_route_rules(1, &encode(r#"["A"]"#)), 0);
    assert_eq!(engine.check_response_for_route(1, &[0xc3, b'A']), 0);
}

#[test]
fn empty_pattern_matches_any_text() {
    let mut reg = RouteRegistry::new();
    assert_eq!(engine_load_route_rules(&mut reg, 1, &encode(r#"[""]"#)), 0);
    assert_eq!(engine_check_response_for_route(&reg, 1, b""), 1);
    assert_eq!(engine_check_response_for_route(&reg, 1, b"abc"), 1);
}

#[test]
fn non_ascii_patterns_match_by_character() {
    let mut reg = RouteRegistry::new();
    assert_eq!(engine_load_route_rules(&mut reg, 1, &encode(r#"["héllo", "été"]"#)), 0);
    assert_eq!(engine_check_response_for_route(&reg, 1, "say héllo".as_bytes()), 1);
    assert_eq!(engine_check_response_for_route(&reg, 1, "en été".as_bytes()), 1);
    assert_eq!(engine_check_response_for_route(&reg, 1, "hello".as_bytes()), 0);
}

#[test]
fn decode_yields_the_json_strings() {
    let v = decode_patterns(&encode(r#"["rm -rf", "DROP TABLE"]"#)).unwrap();
    assert_eq!(v, vec!["rm -rf".to_string(), "DROP TABLE".to_string()]);
    assert_eq!(decode_patterns(b""), Err(LoadError::EmptyInput));
    assert_eq!(decode_patterns(b"@@"), Err(LoadError::InvalidEncoding));
    assert_eq!(decode_patterns(&[0x80]), Err(LoadError::InvalidEncoding));
    assert_eq!(decode_patterns(&encode("[true]")), Err(LoadError::InvalidPayload));
    assert_eq!(decode_patterns(&encode("[]")), Ok(vec![]));
}

#[test]
fn compile_and_match() {
    let m = Matcher::compile(&vec!["foo".to_string(), "bar".to_string()]).unwrap();
    assert_eq!(m.pattern_count(), 2);
    assert!(m.is_match("xx bar xx"));
    assert!(!m.is_match("xx baz xx"));
    let empty = Matcher::compile(&vec![]).unwrap();
    assert_eq!(empty.pattern_count(), 0);
    assert!(!empty.is_match("anything"));
    assert!(!empty.is_match(""));
}

#[test]
fn prepare_builds_matcher_from_blob() {
    let m = prepare(&encode(r#"["needle"]"#)).unwrap();
    assert_eq!(m.pattern_count(), 1);
    assert!(m.is_match("haystack with needle"));
    assert!(matches!(prepare(b"*"), Err(LoadError::InvalidEncoding)));
}

#[test]
fn registry_put_get_remove() {
    let mut reg = RouteRegistry::new();
    reg.put(8, Matcher::compile(&vec!["q".to_string()]).unwrap());
    let m = reg.get(8).unwrap();
    reg.remove(8);
    assert!(reg.get(8).is_none());
    assert!(m.is_match("quiet"));
    assert_eq!(reg.load(8, &encode(r#"["z"]"#)), Ok(()));
    assert_eq!(reg.load(8, b""), Err(LoadError::EmptyInput));
    assert!(reg.check(8, "zz"));
    reg.clear_all();
    assert!(!reg.check(8, "zz"));
}

#[test]
fn status_codes_of_errors() {
    assert_eq!(LoadError::EmptyInput.status_code(), -1);
    assert_eq!(LoadError::InvalidEncoding.status_code(), -2);
    assert_eq!(LoadError::InvalidPayload.status_code(), -3);
    assert_eq!(LoadError::BuildFailed.status_code(), -4);
}

#[test]
fn shared_engine_reload_swaps_rule_set() {
    let engine = RuleEngine::new();
    assert_eq!(engine.load_route_rules(1, &encode(r#"["old"]"#)), 0);
    for i in 0..50 {
        let (blob, hit, miss) = if i % 2 == 0 {
            (encode(r#"["new"]"#), &b"new"[..], &b"old"[..])
        } else {
            (encode(r#"["old"]"#), &b"old"[..], &b"new"[..])
        };
        assert_eq!(engine.load_route_rules(1, &blob), 0);
        assert_eq!(engine.check_response_for_route(1, hit), 1);
        assert_eq!(engine.check_response_for_route(1, miss), 0);
    }
    assert_eq!(engine.load_route_rules(1, b"%"), -2);
    assert_eq!(engine.check_response_for_route(1, b"old"), 1);
}
