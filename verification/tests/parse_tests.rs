use meme_generator::msg::MemeRequest;
use meme_generator::pipeline::{consume_message, consume_step, ConsumeAction};

fn fid() -> String {
    "00000000-0000-4000-8000-000000000000".to_string()
}

fn dispatch(payload: &[u8]) -> MemeRequest {
    match consume_step(payload, fid()) {
        ConsumeAction::Dispatch(r) => r,
        ConsumeAction::AckAndSkip => panic!("expected a dispatch for {:?}", payload),
    }
}

fn skipped(payload: &[u8]) -> bool {
    matches!(consume_step(payload, fid()), ConsumeAction::AckAndSkip)
}

#[test]
fn full_request_parses() {
    let r = dispatch(br#"{"id":"r-1","prompt":"cat","fast_mode":true,"small_image":false}"#);
    assert_eq!(r.id, "r-1");
    assert_eq!(r.prompt, "cat");
    assert!(r.fast_mode);
    assert!(!r.small_image);
}

#[test]
fn absent_fields_default() {
    let r = dispatch(br#"{"prompt":"dog"}"#);
    assert_eq!(r.id, fid());
    assert_eq!(r.prompt, "dog");
    assert!(!r.fast_mode);
    assert!(!r.small_image);
}

#[test]
fn member_order_is_free() {
    let r = dispatch(br#"{"small_image":true,"prompt":"p","id":"x"}"#);
    assert_eq!(r.id, "x");
    assert_eq!(r.prompt, "p");
    assert!(!r.fast_mode);
    assert!(r.small_image);
}

#[test]
fn whitespace_is_tolerated() {
    let r = dispatch(b" \t\r\n { \"prompt\" : \"p\" , \"fast_mode\" : true } \n");
    assert_eq!(r.prompt, "p");
    assert!(r.fast_mode);
}

#[test]
fn unknown_members_are_skipped() {
    let r = dispatch(
        br#"{"extra":[1,2.5e-3,{"deep":[[]]},"s"],"prompt":"p","n":null,"o":{"a":false}}"#,
    );
    assert_eq!(r.prompt, "p");
}

#[test]
fn string_escapes_are_decoded() {
    let r = dispatch(br#"{"prompt":"a\"b\\c\/d\b\f\n\r\te"}"#);
    assert_eq!(r.prompt, "a\"b\\c/d\u{8}\u{c}\n\r\te");
}

#[test]
fn unicode_escapes_are_decoded() {
    let r = dispatch(br#"{"prompt":"cat \u00e9 \u0041"}"#);
    assert_eq!(r.prompt, "cat \u{e9} A");
}

#[test]
fn surrogate_pairs_combine() {
    let r = dispatch(br#"{"prompt":"\ud83e\udd80 crab"}"#);
    assert_eq!(r.prompt, "\u{1f980} crab");
}

#[test]
fn escaped_key_matches_member() {
    let r = dispatch(br#"{"\u0070rompt":"p"}"#);
    assert_eq!(r.prompt, "p");
}

#[test]
fn multibyte_payload_parses() {
    let r = dispatch("{\"prompt\":\"café 🦀\"}".as_bytes());
    assert_eq!(r.prompt, "café 🦀");
}

#[test]
fn empty_prompt_is_accepted() {
    let r = dispatch(br#"{"prompt":""}"#);
    assert_eq!(r.prompt, "");
}

#[test]
fn invalid_json_is_acked_and_skipped() {
    assert!(skipped(b"not json at all"));
    assert!(skipped(b"{"));
    assert!(skipped(br#"{"prompt":"p""#));
    assert!(skipped(br#"{"prompt":}"#));
    assert!(skipped(b""));
}

#[test]
fn missing_prompt_is_acked_and_skipped() {
    assert!(skipped(br#"{}"#));
    assert!(skipped(br#"{"id":"x","fast_mode":true}"#));
}

#[test]
fn wrongly_typed_member_is_refused() {
    assert!(skipped(br#"{"prompt":5}"#));
    assert!(skipped(br#"{"prompt":"p","fast_mode":"yes"}"#));
    assert!(skipped(br#"{"prompt":"p","id":null}"#));
}

#[test]
fn duplicate_known_member_is_refused() {
    assert!(skipped(br#"{"prompt":"a","prompt":"b"}"#));
    assert!(skipped(br#"{"fast_mode":true,"prompt":"p","fast_mode":true}"#));
}

#[test]
fn duplicate_unknown_member_is_tolerated() {
    let r = dispatch(br#"{"x":1,"x":2,"prompt":"p"}"#);
    assert_eq!(r.prompt, "p");
}

#[test]
fn trailing_content_is_refused() {
    assert!(skipped(br#"{"prompt":"p"} extra"#));
    assert!(skipped(br#"{"prompt":"p"}{"prompt":"q"}"#));
}

#[test]
fn non_object_payload_is_refused() {
    assert!(skipped(br#""prompt""#));
    assert!(skipped(b"[1,2,3]"));
    assert!(skipped(b"17"));
    assert!(skipped(b"true"));
    assert!(skipped(b"null"));
}

#[test]
fn trailing_comma_is_refused() {
    assert!(skipped(br#"{"prompt":"p",}"#));
    assert!(skipped(br#"{"a":[1,2,],"prompt":"p"}"#));
}

#[test]
fn invalid_utf8_is_acked_and_skipped() {
    assert!(skipped(&[0xff, 0xfe, b'{', b'}']));
    assert!(skipped(br#"{"prompt":""#.iter().copied().chain([0xc0, b'"', b'}']).collect::<Vec<u8>>().as_slice()));
}

#[test]
fn raw_control_character_is_refused() {
    assert!(skipped(b"{\"prompt\":\"a\nb\"}"));
    assert!(skipped(b"{\"prompt\":\"a\x01b\"}"));
}

#[test]
fn lone_surrogate_is_refused() {
    assert!(skipped(br#"{"prompt":"\ud83e"}"#));
    assert!(skipped(br#"{"prompt":"\udd80x"}"#));
    assert!(skipped(br#"{"prompt":"\ud83ea"}"#));
}

#[test]
fn invalid_escape_is_refused() {
    assert!(skipped(br#"{"prompt":"\x61"}"#));
    assert!(skipped(br#"{"prompt":"\u12"}"#));
    assert!(skipped(br#"{"prompt":"\u12zz"}"#));
}

#[test]
fn number_syntax_is_checked_in_skipped_members() {
    let ok = dispatch(br#"{"n":-0.25e+10,"prompt":"p"}"#);
    assert_eq!(ok.prompt, "p");
    assert!(skipped(br#"{"n":01,"prompt":"p"}"#));
    assert!(skipped(br#"{"n":1.,"prompt":"p"}"#));
    assert!(skipped(br#"{"n":.5,"prompt":"p"}"#));
    assert!(skipped(br#"{"n":1e,"prompt":"p"}"#));
    assert!(skipped(br#"{"n":-,"prompt":"p"}"#));
}

#[test]
fn consume_message_draws_a_fresh_id() {
    match consume_message(br#"{"prompt":"p"}"#) {
        ConsumeAction::Dispatch(r) => {
            assert_eq!(r.id.chars().count(), 36);
            assert_eq!(r.prompt, "p");
        },
        ConsumeAction::AckAndSkip => panic!("expected a dispatch"),
    }
}

#[test]
fn consume_message_keeps_a_given_id() {
    match consume_message(br#"{"id":"keep","prompt":"p"}"#) {
        ConsumeAction::Dispatch(r) => assert_eq!(r.id, "keep"),
        ConsumeAction::AckAndSkip => panic!("expected a dispatch"),
    }
}

#[test]
fn consume_message_acks_malformed_payloads() {
    assert!(matches!(consume_message(b"nope"), ConsumeAction::AckAndSkip));
}
