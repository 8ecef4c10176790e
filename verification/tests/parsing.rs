use pkg_inspect::manifest::{parse_manifest, manifest_to_value, Manifest};

fn scripts_of(m: &Manifest) -> Vec<(String, String)> {
    m.scripts.clone().expect("manifest should declare scripts")
}

#[test]
fn parses_name_and_scripts() {
    let text = r#"{"name":"x","scripts":{"build":"tsc","test":"jest"}}"#;
    let m = parse_manifest(text).expect("manifest should parse");
    assert_eq!(m.name, "x");
    let mut pairs = scripts_of(&m);
    pairs.sort();
    assert_eq!(
        pairs,
        vec![
            ("build".to_string(), "tsc".to_string()),
            ("test".to_string(), "jest".to_string()),
        ]
    );
}

#[test]
fn parses_manifest_without_scripts() {
    let m = parse_manifest(r#"{"name":"x"}"#).expect("manifest should parse");
    assert_eq!(m.name, "x");
    assert!(m.scripts.is_none());
}

#[test]
fn parses_manifest_with_empty_scripts() {
    let m = parse_manifest(r#"{"name":"x","scripts":{}}"#).expect("manifest should parse");
    assert_eq!(m.scripts, Some(vec![]));
}

#[test]
fn ignores_unknown_fields() {
    let text = r#"{"name":"x","version":"1.0.0","private":true,"workspaces":["a"]}"#;
    let m = parse_manifest(text).expect("extra fields must be ignored");
    assert_eq!(m.name, "x");
}

#[test]
fn rejects_wrong_name_type() {
    let err = parse_manifest(r#"{"name": 123}"#).unwrap_err();
    assert_eq!(err, "field `name` must be a string");
}

#[test]
fn rejects_missing_name() {
    let err = parse_manifest(r#"{"scripts":{}}"#).unwrap_err();
    assert_eq!(err, "missing required field `name`");
}

#[test]
fn rejects_non_object_top_level() {
    let err = parse_manifest(r#"["x"]"#).unwrap_err();
    assert_eq!(err, "expected a JSON object at the top level");
}

#[test]
fn rejects_scripts_of_wrong_type() {
    let err = parse_manifest(r#"{"name":"x","scripts":[]}"#).unwrap_err();
    assert_eq!(err, "field `scripts` must be an object");
}

#[test]
fn rejects_non_string_script_value() {
    let err = parse_manifest(r#"{"name":"x","scripts":{"a":1}}"#).unwrap_err();
    assert_eq!(err, "every value in `scripts` must be a string");
}

#[test]
fn broken_json_gives_parser_diagnostic() {
    let err = parse_manifest("{nope").unwrap_err();
    assert!(!err.is_empty());
}

#[test]
fn duplicate_script_keys_keep_the_last_value() {
    let text = r#"{"name":"x","scripts":{"a":"first","a":"second"}}"#;
    let m = parse_manifest(text).expect("manifest should parse");
    assert_eq!(scripts_of(&m), vec![("a".to_string(), "second".to_string())]);
}

#[test]
fn non_ascii_text_is_preserved() {
    let text = r#"{"name":"prøve","scripts":{"grüß":"echo ∞"}}"#;
    let m = parse_manifest(text).expect("manifest should parse");
    assert_eq!(m.name, "prøve");
    assert_eq!(scripts_of(&m), vec![("grüß".to_string(), "echo ∞".to_string())]);
}

#[test]
fn round_trip_preserves_manifest() {
    let m = Manifest {
        name: "x".to_string(),
        scripts: Some(vec![
            ("build".to_string(), "tsc".to_string()),
            ("test".to_string(), "jest".to_string()),
        ]),
    };
    let value = manifest_to_value(&m);
    let text = serde_json::to_string(&value).expect("schema form should serialize");
    let back = parse_manifest(&text).expect("schema form should parse");
    assert_eq!(back.name, m.name);
    let mut got = scripts_of(&back);
    got.sort();
    let mut want = scripts_of(&m);
    want.sort();
    assert_eq!(got, want);
}

#[test]
fn round_trip_preserves_manifest_without_scripts() {
    let m = Manifest { name: "only-a-name".to_string(), scripts: None };
    let value = manifest_to_value(&m);
    let text = serde_json::to_string(&value).expect("schema form should serialize");
    let back = parse_manifest(&text).expect("schema form should parse");
    assert_eq!(back, m);
}
