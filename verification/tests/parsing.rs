use matcher_rs::json::ParseError;
use matcher_rs::manifest::{
    decode_manifest, parse_manifest, GlobalCredentialManifest, ManifestAttribute,
    ManifestCredentialEntry,
};
use matcher_rs::request::{
    decode_request, parse_request, parse_requested_profiles, requested_profiles,
    DigitalRequestObject, DirectRequestPayload, ProfileData,
};

fn s(text: &str) -> String {
    text.to_string()
}

#[test]
fn manifest_with_every_field_decodes() {
    let text = r#"{"credentials":[{"id":"c1","tags":["P1","P2"],"title":"T","subtitle":"S","disclaimer":"D","attributes":[{"name":"Name","value":"Bilbo"},{"name":"Aliases"}]}]}"#;
    assert_eq!(
        parse_manifest(text),
        Ok(GlobalCredentialManifest {
            credentials: vec![ManifestCredentialEntry {
                id: s("c1"),
                tags: vec![s("P1"), s("P2")],
                attributes: vec![
                    ManifestAttribute { name: s("Name"), value: Some(s("Bilbo")) },
                    ManifestAttribute { name: s("Aliases"), value: None },
                ],
                title: s("T"),
                subtitle: Some(s("S")),
                disclaimer: Some(s("D")),
            }],
        })
    );
}

#[test]
fn manifest_optional_fields_may_be_missing_or_null() {
    let text = r#"{"credentials":[{"id":"c1","tags":[],"title":"T","subtitle":null,"attributes":[{"name":"N","value":null}]}]}"#;
    let manifest = parse_manifest(text).unwrap();
    let entry = &manifest.credentials[0];
    assert_eq!(entry.subtitle, None);
    assert_eq!(entry.disclaimer, None);
    assert_eq!(entry.attributes[0].value, None);
    assert!(entry.tags.is_empty());
}

#[test]
fn manifest_empty_value_is_not_absent() {
    let text = r#"{"credentials":[{"id":"c1","tags":[],"title":"T","attributes":[{"name":"N","value":""}]}]}"#;
    let manifest = parse_manifest(text).unwrap();
    assert_eq!(manifest.credentials[0].attributes[0].value, Some(s("")));
}

#[test]
fn manifest_unknown_fields_are_ignored() {
    let text = r#"{"version":3,"credentials":[{"id":"c1","tags":["P1"],"title":"T","attributes":[{"name":"N","hint":[1,2]}],"extra":{"a":{"b":null}}}],"more":true}"#;
    let manifest = parse_manifest(text).unwrap();
    assert_eq!(manifest.credentials.len(), 1);
    assert_eq!(manifest.credentials[0].id, "c1");
    assert_eq!(manifest.credentials[0].attributes[0].name, "N");
}

#[test]
fn manifest_keeps_entry_and_attribute_order() {
    let text = r#"{"credentials":[{"id":"b","tags":[],"title":"T","attributes":[{"name":"z"},{"name":"a"},{"name":"m"}]},{"id":"a","tags":[],"title":"T","attributes":[]}]}"#;
    let manifest = parse_manifest(text).unwrap();
    let ids: Vec<&str> = manifest.credentials.iter().map(|e| e.id.as_str()).collect();
    assert_eq!(ids, vec!["b", "a"]);
    let names: Vec<&str> =
        manifest.credentials[0].attributes.iter().map(|a| a.name.as_str()).collect();
    assert_eq!(names, vec!["z", "a", "m"]);
}

#[test]
fn manifest_empty_list_is_a_manifest() {
    assert_eq!(
        parse_manifest(r#"{"credentials":[]}"#),
        Ok(GlobalCredentialManifest { credentials: vec![] })
    );
}

#[test]
fn manifest_text_that_is_not_json_is_a_syntax_error() {
    assert_eq!(parse_manifest(""), Err(ParseError::Syntax));
    assert_eq!(parse_manifest("{"), Err(ParseError::Syntax));
    assert_eq!(parse_manifest(r#"{"credentials":[]} trailing"#), Err(ParseError::Syntax));
}

#[test]
fn manifest_missing_required_field_is_a_schema_error() {
    let without = |field: &str| {
        let mut members = vec![
            ("id", r#""c1""#),
            ("tags", r#"["P1"]"#),
            ("title", r#""T""#),
            ("attributes", "[]"),
        ];
        members.retain(|(name, _)| *name != field);
        let body: Vec<String> =
            members.iter().map(|(name, value)| format!("\"{}\":{}", name, value)).collect();
        format!("{{\"credentials\":[{{{}}}]}}", body.join(","))
    };
    assert!(parse_manifest(&without("none")).is_ok());
    assert_eq!(parse_manifest(&without("id")), Err(ParseError::Schema));
    assert_eq!(parse_manifest(&without("tags")), Err(ParseError::Schema));
    assert_eq!(parse_manifest(&without("title")), Err(ParseError::Schema));
    assert_eq!(parse_manifest(&without("attributes")), Err(ParseError::Schema));
    assert_eq!(parse_manifest("{}"), Err(ParseError::Schema));
    assert_eq!(
        parse_manifest(r#"{"credentials":[{"id":"c","tags":[],"title":"T","attributes":[{"value":"v"}]}]}"#),
        Err(ParseError::Schema)
    );
}

#[test]
fn manifest_wrong_type_is_a_schema_error() {
    let cases = [
        r#"[]"#,
        r#""credentials""#,
        r#"{"credentials":{}}"#,
        r#"{"credentials":["c1"]}"#,
        r#"{"credentials":[["c1",[],[],"T"]]}"#,
        r#"{"credentials":[{"id":1,"tags":[],"title":"T","attributes":[]}]}"#,
        r#"{"credentials":[{"id":null,"tags":[],"title":"T","attributes":[]}]}"#,
        r#"{"credentials":[{"id":"c","tags":"P1","title":"T","attributes":[]}]}"#,
        r#"{"credentials":[{"id":"c","tags":["P1",2],"title":"T","attributes":[]}]}"#,
        r#"{"credentials":[{"id":"c","tags":[],"title":["T"],"attributes":[]}]}"#,
        r#"{"credentials":[{"id":"c","tags":[],"title":"T","attributes":{}}]}"#,
        r#"{"credentials":[{"id":"c","tags":[],"title":"T","attributes":["n"]}]}"#,
        r#"{"credentials":[{"id":"c","tags":[],"title":"T","attributes":[{"name":"n","value":7}]}]}"#,
        r#"{"credentials":[{"id":"c","tags":[],"title":"T","attributes":[{"name":false}]}]}"#,
        r#"{"credentials":[{"id":"c","tags":[],"title":"T","attributes":[],"subtitle":1}]}"#,
        r#"{"credentials":[{"id":"c","tags":[],"title":"T","attributes":[],"disclaimer":{}}]}"#,
    ];
    for text in cases {
        assert_eq!(parse_manifest(text), Err(ParseError::Schema), "{}", text);
    }
}

#[test]
fn manifest_one_bad_entry_spoils_the_document() {
    let text = r#"{"credentials":[{"id":"c1","tags":["P1"],"title":"T","attributes":[]},{"id":"c2","tags":["P1"],"attributes":[]}]}"#;
    assert_eq!(parse_manifest(text), Err(ParseError::Schema));
}

#[test]
fn manifest_decodes_from_a_built_value() {
    let mut attribute = serde_json::Map::new();
    attribute.insert(s("name"), serde_json::Value::String(s("Name")));
    let mut entry = serde_json::Map::new();
    entry.insert(s("id"), serde_json::Value::String(s("c9")));
    entry.insert(s("title"), serde_json::Value::String(s("Title")));
    entry.insert(
        s("tags"),
        serde_json::Value::Array(vec![serde_json::Value::String(s("P"))]),
    );
    entry.insert(
        s("attributes"),
        serde_json::Value::Array(vec![serde_json::Value::Object(attribute)]),
    );
    entry.insert(s("subtitle"), serde_json::Value::Null);
    let mut root = serde_json::Map::new();
    root.insert(
        s("credentials"),
        serde_json::Value::Array(vec![serde_json::Value::Object(entry)]),
    );
    let manifest = decode_manifest(&serde_json::Value::Object(root)).unwrap();
    assert_eq!(
        manifest.credentials,
        vec![ManifestCredentialEntry {
            id: s("c9"),
            tags: vec![s("P")],
            attributes: vec![ManifestAttribute { name: s("Name"), value: None }],
            title: s("Title"),
            subtitle: None,
            disclaimer: None,
        }]
    );
    assert_eq!(decode_manifest(&serde_json::Value::Null), Err(ParseError::Schema));
    assert_eq!(
        decode_manifest(&serde_json::Value::Array(vec![])),
        Err(ParseError::Schema)
    );
}

#[test]
fn request_profiles_are_flattened() {
    let text = r#"{"requests":[{"protocol":"x","data":{"r1":{"_profile":"P1"},"r2":{"_profile":"P2","format":"f"}}},{"data":{"r3":{"_profile":"P3"}}}]}"#;
    assert_eq!(parse_requested_profiles(text), Ok(vec![s("P1"), s("P2"), s("P3")]));
}

#[test]
fn request_decodes_to_its_objects() {
    let text = r#"{"requests":[{"protocol":"x","data":{"r1":{"_profile":"P1"}}},{}]}"#;
    assert_eq!(
        parse_request(text),
        Ok(DirectRequestPayload {
            requests: vec![
                DigitalRequestObject {
                    protocol: Some(s("x")),
                    data: Some(vec![(s("r1"), ProfileData { _profile: s("P1") })]),
                },
                DigitalRequestObject { protocol: None, data: None },
            ],
        })
    );
}

#[test]
fn request_without_data_asks_for_nothing() {
    assert_eq!(parse_requested_profiles(r#"{"requests":[]}"#), Ok(vec![]));
    assert_eq!(parse_requested_profiles(r#"{"requests":[{}]}"#), Ok(vec![]));
    assert_eq!(parse_requested_profiles(r#"{"requests":[{"data":null}]}"#), Ok(vec![]));
    assert_eq!(parse_requested_profiles(r#"{"requests":[{"data":{}}]}"#), Ok(vec![]));
    assert_eq!(
        parse_requested_profiles(r#"{"requests":[{"protocol":null,"other":1}]}"#),
        Ok(vec![])
    );
}

#[test]
fn request_repeated_resource_type_counts_once() {
    let text = r#"{"requests":[{"data":{"r":{"_profile":"A"},"r":{"_profile":"B"}}}]}"#;
    assert_eq!(parse_requested_profiles(text), Ok(vec![s("B")]));
}

#[test]
fn request_key_order_does_not_change_the_profile_set() {
    let one = parse_requested_profiles(
        r#"{"requests":[{"data":{"a":{"_profile":"P1"},"b":{"_profile":"P2"}}}]}"#,
    )
    .unwrap();
    let mut other = parse_requested_profiles(
        r#"{"requests":[{"data":{"b":{"_profile":"P2"},"a":{"_profile":"P1"}}}]}"#,
    )
    .unwrap();
    let mut sorted = one.clone();
    sorted.sort();
    other.sort();
    assert_eq!(sorted, other);
    assert_eq!(sorted, vec![s("P1"), s("P2")]);
}

#[test]
fn request_text_that_is_not_json_is_a_syntax_error() {
    assert_eq!(parse_requested_profiles("requests"), Err(ParseError::Syntax));
    assert_eq!(parse_requested_profiles(r#"{"requests":[}"#), Err(ParseError::Syntax));
    assert_eq!(parse_request(""), Err(ParseError::Syntax));
}

#[test]
fn request_schema_violations_are_schema_errors() {
    let cases = [
        r#"{}"#,
        r#"[]"#,
        r#"{"requests":{}}"#,
        r#"{"requests":null}"#,
        r#"{"requests":[1]}"#,
        r#"{"requests":["r"]}"#,
        r#"{"requests":[[]]}"#,
        r#"{"requests":[{"protocol":5}]}"#,
        r#"{"requests":[{"data":[]}]}"#,
        r#"{"requests":[{"data":"d"}]}"#,
        r#"{"requests":[{"data":{"r":"P1"}}]}"#,
        r#"{"requests":[{"data":{"r":{}}}]}"#,
        r#"{"requests":[{"data":{"r":{"_profile":1}}}]}"#,
        r#"{"requests":[{"data":{"r":{"_profile":null}}}]}"#,
        r#"{"requests":[{"data":{"r":{"profile":"P1"}}}]}"#,
        r#"{"requests":[{"data":{"ok":{"_profile":"P1"},"bad":{}}}]}"#,
    ];
    for text in cases {
        assert_eq!(parse_requested_profiles(text), Err(ParseError::Schema), "{}", text);
    }
}

#[test]
fn request_decodes_from_a_built_value() {
    let mut constraint = serde_json::Map::new();
    constraint.insert(s("_profile"), serde_json::Value::String(s("P7")));
    let mut data = serde_json::Map::new();
    data.insert(s("kind"), serde_json::Value::Object(constraint));
    let mut object = serde_json::Map::new();
    object.insert(s("data"), serde_json::Value::Object(data));
    let mut root = serde_json::Map::new();
    root.insert(
        s("requests"),
        serde_json::Value::Array(vec![serde_json::Value::Object(object)]),
    );
    let request = decode_request(&serde_json::Value::Object(root)).unwrap();
    assert_eq!(requested_profiles(&request), vec![s("P7")]);
    assert_eq!(decode_request(&serde_json::Value::Bool(true)), Err(ParseError::Schema));
}

#[test]
fn requested_profiles_follow_the_objects() {
    let request = DirectRequestPayload {
        requests: vec![
            DigitalRequestObject { protocol: None, data: None },
            DigitalRequestObject {
                protocol: None,
                data: Some(vec![
                    (s("x"), ProfileData { _profile: s("B") }),
                    (s("y"), ProfileData { _profile: s("A") }),
                ]),
            },
            DigitalRequestObject { protocol: Some(s("p")), data: Some(vec![]) },
            DigitalRequestObject {
                protocol: None,
                data: Some(vec![(s("x"), ProfileData { _profile: s("B") })]),
            },
        ],
    };
    assert_eq!(requested_profiles(&request), vec![s("B"), s("A"), s("B")]);
}
