use matcher_rs::json::ParseError;
use matcher_rs::orchestrator::{start, step, Action, Halt, HostReply, Stage};
use matcher_rs::presenter::HostCall;
use matcher_rs::transfer::{FetchError, SourceKind};

const ICON: &[u8] = &[1, 2, 3];

const REQUEST_P1: &str = r#"{"requests":[{"data":{"r1":{"_profile":"P1"}}}]}"#;

const MANIFEST: &str = r#"{"credentials":[{"id":"c1","tags":["P1","P2"],"title":"T","attributes":[{"name":"Name","value":"Bilbo"}]}]}"#;

fn run(request: &[u8], manifest_size: u32, manifest: &[u8], written: usize) -> (Stage, Action<'static>) {
    let (stage, action) = start();
    assert_eq!(action, Action::QuerySize(SourceKind::Request));
    let (stage, action) = step(stage, HostReply::Size(request.len() as u32), Some(ICON));
    assert_eq!(action, Action::FillRequest { len: request.len() });
    let (stage, action) =
        step(stage, HostReply::RequestFilled { buffer: request.to_vec() }, Some(ICON));
    if action != Action::QuerySize(SourceKind::Manifest) {
        return (stage, action);
    }
    let (stage, action) = step(stage, HostReply::Size(manifest_size), Some(ICON));
    if manifest_size == 0 {
        return (stage, action);
    }
    assert_eq!(action, Action::ReadManifest { offset: 0, len: manifest_size as usize });
    step(stage, HostReply::ManifestRead { buffer: manifest.to_vec(), written }, Some(ICON))
}

fn run_texts(request: &str, manifest: &str) -> (Stage, Action<'static>) {
    run(request.as_bytes(), manifest.len() as u32, manifest.as_bytes(), manifest.len())
}

#[test]
fn scenario_matching_profile_registers_entry_and_field() {
    let (stage, action) = run_texts(REQUEST_P1, MANIFEST);
    assert_eq!(stage, Stage::Done);
    assert_eq!(
        action,
        Action::Present(vec![
            HostCall::RegisterEntry {
                correlation: "{\"id\":\"c1\"}".to_string(),
                icon: Some(ICON),
                title: "T".to_string(),
                subtitle: "SHC ID: c1".to_string(),
                disclaimer: None,
                warning: None,
            },
            HostCall::RegisterField {
                correlation: "{\"id\":\"c1\"}".to_string(),
                display_name: "Name".to_string(),
                display_value: Some("Bilbo".to_string()),
            },
        ])
    );
}

#[test]
fn scenario_synthesized_subtitle_contains_id() {
    let (_, action) = run_texts(REQUEST_P1, MANIFEST);
    match action {
        Action::Present(calls) => match &calls[0] {
            HostCall::RegisterEntry { subtitle, .. } => {
                assert!(!subtitle.is_empty());
                assert!(subtitle.contains("c1"));
            }
            _ => panic!("the first call registers the entry"),
        },
        _ => panic!("the run presents"),
    }
}

#[test]
fn scenario_unmatched_profile_registers_nothing() {
    let request = r#"{"requests":[{"data":{"r1":{"_profile":"P3"}}}]}"#;
    let (stage, action) = run_texts(request, MANIFEST);
    assert_eq!(stage, Stage::Done);
    assert_eq!(action, Action::Present(vec![]));
}

#[test]
fn scenario_attribute_without_value_registers_null() {
    let manifest = r#"{"credentials":[{"id":"c1","tags":["P1"],"title":"T","attributes":[{"name":"Aliases"}]}]}"#;
    let (_, action) = run_texts(REQUEST_P1, manifest);
    match action {
        Action::Present(calls) => {
            assert_eq!(calls.len(), 2);
            assert_eq!(
                calls[1],
                HostCall::RegisterField {
                    correlation: "{\"id\":\"c1\"}".to_string(),
                    display_name: "Aliases".to_string(),
                    display_value: None,
                }
            );
        }
        _ => panic!("the run presents"),
    }
}

#[test]
fn scenario_empty_manifest_aborts_after_manifest_fetch() {
    let (stage, action) = run(REQUEST_P1.as_bytes(), 0, b"", 0);
    assert_eq!(stage, Stage::Done);
    assert_eq!(action, Action::Stop(Halt::Fetch(FetchError::EmptySource)));
}

#[test]
fn empty_manifest_aborts_whatever_the_request_asks() {
    let request = r#"{"requests":[{"data":{"a":{"_profile":"X"},"b":{"_profile":"Y"}}}]}"#;
    let (stage, action) = run(request.as_bytes(), 0, b"", 0);
    assert_eq!(stage, Stage::Done);
    assert_eq!(action, Action::Stop(Halt::Fetch(FetchError::EmptySource)));
}

#[test]
fn empty_request_size_stops_at_once() {
    let (stage, _) = start();
    let (stage, action) = step(stage, HostReply::Size(0), Some(ICON));
    assert_eq!(stage, Stage::Done);
    assert_eq!(action, Action::Stop(Halt::Fetch(FetchError::EmptySource)));
}

#[test]
fn request_that_is_not_text_stops() {
    let (stage, action) = run(&[0xff, 0xfe, 0x00], 5, b"{}", 2);
    assert_eq!(stage, Stage::Done);
    assert_eq!(action, Action::Stop(Halt::Fetch(FetchError::Encoding)));
}

#[test]
fn request_that_is_not_json_stops() {
    let (stage, action) = run_texts("{not json", MANIFEST);
    assert_eq!(stage, Stage::Done);
    assert_eq!(action, Action::Stop(Halt::Parse(ParseError::Syntax)));
}

#[test]
fn request_that_breaks_schema_stops() {
    let (_, action) = run_texts(r#"{"requests":[{"data":{"r1":{}}}]}"#, MANIFEST);
    assert_eq!(action, Action::Stop(Halt::Parse(ParseError::Schema)));
}

#[test]
fn request_without_profiles_short_circuits() {
    let (stage, action) = run_texts(r#"{"requests":[{"protocol":"p"}]}"#, MANIFEST);
    assert_eq!(stage, Stage::Done);
    assert_eq!(action, Action::Stop(Halt::EmptyMatchSet));
    let (_, action) = run_texts(r#"{"requests":[]}"#, MANIFEST);
    assert_eq!(action, Action::Stop(Halt::EmptyMatchSet));
}

#[test]
fn manifest_read_of_nothing_stops() {
    let (stage, action) = run(REQUEST_P1.as_bytes(), 10, &[0u8; 10], 0);
    assert_eq!(stage, Stage::Done);
    assert_eq!(action, Action::Stop(Halt::Fetch(FetchError::ReadFailure)));
}

#[test]
fn manifest_that_is_not_text_stops() {
    let (_, action) = run(REQUEST_P1.as_bytes(), 2, &[0xc3, 0x28], 2);
    assert_eq!(action, Action::Stop(Halt::Fetch(FetchError::Encoding)));
}

#[test]
fn manifest_that_breaks_schema_stops_with_nothing_presented() {
    let manifest = r#"{"credentials":[{"id":"c1","tags":["P1"],"title":"T","attributes":[]},{"id":"c2"}]}"#;
    let (stage, action) = run_texts(REQUEST_P1, manifest);
    assert_eq!(stage, Stage::Done);
    assert_eq!(action, Action::Stop(Halt::Parse(ParseError::Schema)));
}

#[test]
fn short_manifest_read_uses_the_written_part() {
    let mut buffer = MANIFEST.as_bytes().to_vec();
    buffer.extend_from_slice(&[0u8; 7]);
    let (_, action) =
        run(REQUEST_P1.as_bytes(), buffer.len() as u32, &buffer, MANIFEST.len());
    match action {
        Action::Present(calls) => assert_eq!(calls.len(), 2),
        other => panic!("expected a presentation, got {:?}", other),
    }
}

#[test]
fn reply_of_the_wrong_kind_stops() {
    let (stage, _) = start();
    let (stage, action) = step(stage, HostReply::RequestFilled { buffer: vec![1] }, None);
    assert_eq!(stage, Stage::Done);
    assert_eq!(action, Action::Stop(Halt::UnexpectedReply));
    let (stage, action) = step(stage, HostReply::Size(4), None);
    assert_eq!(stage, Stage::Done);
    assert_eq!(action, Action::Stop(Halt::UnexpectedReply));
}

#[test]
fn profiles_are_carried_to_the_manifest_stage() {
    let (stage, _) = start();
    let (stage, _) = step(stage, HostReply::Size(REQUEST_P1.len() as u32), None);
    let (stage, action) =
        step(stage, HostReply::RequestFilled { buffer: REQUEST_P1.as_bytes().to_vec() }, None);
    assert_eq!(stage, Stage::ManifestSize { profiles: vec!["P1".to_string()] });
    assert_eq!(action, Action::QuerySize(SourceKind::Manifest));
    let (stage, action) = step(stage, HostReply::Size(9), None);
    assert_eq!(stage, Stage::ManifestBytes { profiles: vec!["P1".to_string()] });
    assert_eq!(action, Action::ReadManifest { offset: 0, len: 9 });
}

#[test]
fn run_without_icon_registers_without_icon() {
    let (stage, _) = start();
    let (stage, _) = step(stage, HostReply::Size(REQUEST_P1.len() as u32), None);
    let (stage, _) =
        step(stage, HostReply::RequestFilled { buffer: REQUEST_P1.as_bytes().to_vec() }, None);
    let (stage, _) = step(stage, HostReply::Size(MANIFEST.len() as u32), None);
    let (_, action) = step(
        stage,
        HostReply::ManifestRead { buffer: MANIFEST.as_bytes().to_vec(), written: MANIFEST.len() },
        None,
    );
    match action {
        Action::Present(calls) => match &calls[0] {
            HostCall::RegisterEntry { icon, .. } => assert_eq!(*icon, None),
            _ => panic!("the first call registers the entry"),
        },
        _ => panic!("the run presents"),
    }
}
