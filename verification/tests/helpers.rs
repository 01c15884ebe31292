use matcher_rs::diagnostics::{debug_card_identifier, debug_info_card, present_debug_info_card};
use matcher_rs::presenter::{CredentialAttribute, HostCall};
use matcher_rs::text::{concat2, concat3, contains_nul, decimal, same_text};
use matcher_rs::transfer::{buffer_len, decode_text, manifest_text, request_text, FetchError};

fn s(text: &str) -> String {
    text.to_string()
}

#[test]
fn decimal_renders_numbers() {
    assert_eq!(decimal(0), "0");
    assert_eq!(decimal(7), "7");
    assert_eq!(decimal(9), "9");
    assert_eq!(decimal(10), "10");
    assert_eq!(decimal(105), "105");
    assert_eq!(decimal(1234567890), "1234567890");
    assert_eq!(decimal(usize::MAX), usize::MAX.to_string());
}

#[test]
fn contains_nul_finds_the_nul() {
    assert!(!contains_nul(""));
    assert!(!contains_nul("abc0"));
    assert!(contains_nul("\0"));
    assert!(contains_nul("abc\0"));
    assert!(contains_nul("\0abc"));
    assert!(contains_nul("a\u{e9}\0\u{1f600}"));
    assert!(!contains_nul("a\u{e9}\u{1f600}"));
}

#[test]
fn same_text_is_string_equality() {
    assert!(same_text("", ""));
    assert!(same_text("abc", "abc"));
    assert!(!same_text("abc", "abd"));
    assert!(!same_text("abc", "ab"));
    assert!(!same_text("ab", "abc"));
    assert!(!same_text("ABC", "abc"));
    assert!(same_text("\u{e9}\u{1f600}", "\u{e9}\u{1f600}"));
    assert!(!same_text("\u{e9}", "e\u{301}"));
}

#[test]
fn concat_joins_in_order() {
    assert_eq!(concat2("ab", "cd"), "abcd");
    assert_eq!(concat2("", ""), "");
    assert_eq!(concat3("a", "", "c"), "ac");
    assert_eq!(concat3("x", "y", "z"), "xyz");
}

#[test]
fn buffer_len_rejects_zero() {
    assert_eq!(buffer_len(0), Err(FetchError::EmptySource));
    assert_eq!(buffer_len(1), Ok(1));
    assert_eq!(buffer_len(u32::MAX), Ok(u32::MAX as usize));
}

#[test]
fn request_text_validates_utf8() {
    assert_eq!(request_text(b"{\"a\":1}".to_vec()), Ok(s("{\"a\":1}")));
    assert_eq!(request_text("\u{e9}\u{1f600}".as_bytes().to_vec()), Ok(s("\u{e9}\u{1f600}")));
    assert_eq!(request_text(vec![]), Ok(s("")));
    assert_eq!(request_text(vec![0x61, 0x80]), Err(FetchError::Encoding));
    assert_eq!(request_text(vec![0xed, 0xa0, 0x80]), Err(FetchError::Encoding));
    assert_eq!(decode_text(vec![0xc0, 0xaf]), Err(FetchError::Encoding));
    assert_eq!(decode_text(vec![0x00]), Ok(s("\0")));
}

#[test]
fn manifest_text_truncates_to_what_was_written() {
    assert_eq!(manifest_text(b"abcdef".to_vec(), 6), Ok(s("abcdef")));
    assert_eq!(manifest_text(b"abcdef".to_vec(), 3), Ok(s("abc")));
    assert_eq!(manifest_text(b"abc\0\0\0".to_vec(), 3), Ok(s("abc")));
    assert_eq!(manifest_text(b"abcdef".to_vec(), 60), Ok(s("abcdef")));
    assert_eq!(manifest_text(vec![0x61, 0xff, 0x62], 1), Ok(s("a")));
}

#[test]
fn manifest_text_reports_failures() {
    assert_eq!(manifest_text(b"abcdef".to_vec(), 0), Err(FetchError::ReadFailure));
    assert_eq!(manifest_text(vec![0x61, 0xff, 0x62], 2), Err(FetchError::Encoding));
    assert_eq!(manifest_text("\u{e9}".as_bytes().to_vec(), 1), Err(FetchError::Encoding));
    assert_eq!(manifest_text(vec![], 0), Ok(s("")));
}

#[test]
fn debug_identifier_is_cleaned_and_upper_cased() {
    assert_eq!(debug_card_identifier("GetRequestError"), "DEBUG_ID_GETREQUESTERROR");
    assert_eq!(debug_card_identifier("parse request: failed!"), "DEBUG_ID_PARSE_REQUEST_FAILED");
    assert_eq!(debug_card_identifier(""), "DEBUG_ID_");
    assert_eq!(debug_card_identifier("a-b_c 1.2"), "DEBUG_ID_AB_C_12");
    assert_eq!(debug_card_identifier("stra\u{df}e \u{e9}t\u{e9}"), "DEBUG_ID_STRASSE_\u{c9}T\u{c9}");
    assert_eq!(debug_card_identifier("tab\there\0"), "DEBUG_ID_TABHERE");
}

#[test]
fn debug_card_numbers_its_details() {
    let card = debug_info_card("Load Step", vec![s("first"), s("second"), s("")]);
    assert_eq!(card.cred_id_json, "{\"id\":\"DEBUG_ID_LOAD_STEP\"}");
    assert_eq!(card.title, "Debug Info: Load Step");
    assert_eq!(card.subtitle, "Matcher diagnostic information");
    assert_eq!(card.icon_data, None);
    assert_eq!(card.disclaimer, None);
    assert_eq!(card.warning, None);
    assert_eq!(
        card.attributes,
        vec![
            CredentialAttribute { display_name: s("Detail 1"), value: Some(s("first")) },
            CredentialAttribute { display_name: s("Detail 2"), value: Some(s("second")) },
            CredentialAttribute { display_name: s("Detail 3"), value: Some(s("")) },
        ]
    );
}

#[test]
fn debug_card_numbers_past_nine() {
    let details: Vec<String> = (0..12).map(|i| format!("d{}", i)).collect();
    let card = debug_info_card("x", details);
    assert_eq!(card.attributes[8].display_name, "Detail 9");
    assert_eq!(card.attributes[9].display_name, "Detail 10");
    assert_eq!(card.attributes[11].display_name, "Detail 12");
    assert_eq!(card.attributes[11].value, Some(s("d11")));
}

#[test]
fn debug_card_without_details_shows_a_stand_in() {
    let calls = present_debug_info_card("No Profiles", vec![]);
    assert_eq!(
        calls,
        vec![
            HostCall::RegisterEntry {
                correlation: s("{\"id\":\"DEBUG_ID_NO_PROFILES\"}"),
                icon: None,
                title: s("Debug Info: No Profiles"),
                subtitle: s("Matcher diagnostic information"),
                disclaimer: None,
                warning: None,
            },
            HostCall::RegisterField {
                correlation: s("{\"id\":\"DEBUG_ID_NO_PROFILES\"}"),
                display_name: s("Detail 1"),
                display_value: Some(s("(No specific details provided)")),
            },
        ]
    );
}

#[test]
fn debug_card_with_unencodable_title_presents_nothing() {
    assert_eq!(present_debug_info_card("bad\0context", vec![s("d")]), vec![]);
}

#[test]
fn debug_card_leaves_out_a_detail_that_cannot_be_sent() {
    let calls = present_debug_info_card("ctx", vec![s("a\0b"), s("fine")]);
    assert_eq!(calls.len(), 2);
    assert_eq!(
        calls[1],
        HostCall::RegisterField {
            correlation: s("{\"id\":\"DEBUG_ID_CTX\"}"),
            display_name: s("Detail 2"),
            display_value: Some(s("fine")),
        }
    );
}
