use snaplate::engine::parse_recognition_output;
use snaplate::engine::recognition_from_reply;
use snaplate::engine::RecognitionError;
use snaplate::engine::RecognitionReply;
use snaplate::translator::parse_translation_output;
use snaplate::translator::source_lang_for;
use snaplate::translator::TranslationError;

const OK_EXIT: bool = true;
const BAD_EXIT: bool = false;

#[test]
fn code_100_joins_fragments_with_space() {
    let out = b"{\"code\":100,\"data\":[{\"text\":\"Hello\"},{\"text\":\"World\"}]}";
    let r = parse_recognition_output(OK_EXIT, out, b"", false);
    assert_eq!(r, Ok(String::from("Hello World")));
}

#[test]
fn code_100_joins_fragments_with_newline_when_preserving() {
    let out = b"{\"code\":100,\"data\":[{\"text\":\"Hello\"},{\"text\":\"World\"}]}";
    let r = parse_recognition_output(OK_EXIT, out, b"", true);
    assert_eq!(r, Ok(String::from("Hello\nWorld")));
}

#[test]
fn code_101_is_the_empty_result() {
    let r = parse_recognition_output(OK_EXIT, b"{\"code\":101}", b"", false);
    assert_eq!(r, Err(RecognitionError::EmptyResult));
}

#[test]
fn other_codes_carry_the_engine_message() {
    let out = b"{\"code\":903,\"data\":\"model files missing\"}";
    let r = parse_recognition_output(OK_EXIT, out, b"", false);
    assert_eq!(
        r,
        Err(RecognitionError::EngineReported(String::from("model files missing")))
    );
}

#[test]
fn log_lines_before_the_result_are_skipped() {
    let out = b"loading model\nwarmup done\r\n{\"code\":100,\"data\":[{\"text\":\"hi\"}]}\n";
    let r = parse_recognition_output(OK_EXIT, out, b"", false);
    assert_eq!(r, Ok(String::from("hi")));
}

#[test]
fn output_without_a_json_line_fails_to_parse() {
    let r = parse_recognition_output(OK_EXIT, b"only logs here\nno result", b"", false);
    assert_eq!(r, Err(RecognitionError::ParseFailure));
}

#[test]
fn malformed_json_line_fails_to_parse() {
    let r = parse_recognition_output(OK_EXIT, b"{not json", b"", false);
    assert_eq!(r, Err(RecognitionError::ParseFailure));
}

#[test]
fn whitespace_only_text_is_an_empty_result() {
    let out = b"{\"code\":100,\"data\":[{\"text\":\" \"},{\"text\":\"\\t\"}]}";
    let r = parse_recognition_output(OK_EXIT, out, b"", false);
    assert_eq!(r, Err(RecognitionError::EmptyResult));
}

#[test]
fn non_ascii_whitespace_only_text_is_an_empty_result() {
    // The no-break space and the ideographic space are whitespace too:
    // fragments holding only them carry no text.
    let reply = RecognitionReply {
        code: Some(100),
        texts: Some(vec![
            Some(String::from("\u{a0}")),
            Some(String::from("\u{3000}")),
        ]),
        message: None,
    };
    let r = recognition_from_reply(&reply, false);
    assert_eq!(r, Err(RecognitionError::EmptyResult));
}

#[test]
fn gbk_fullwidth_space_only_is_an_empty_result() {
    // 0xA1 0xA1 is the GBK encoding of the ideographic space, a common
    // blank answer from East-Asian recognition engines.
    let mut out: Vec<u8> = Vec::new();
    out.extend_from_slice(b"{\"code\":100,\"data\":[{\"text\":\"");
    out.extend_from_slice(&[0xA1, 0xA1]);
    out.extend_from_slice(b"\"}]}");
    let r = parse_recognition_output(OK_EXIT, &out, b"", false);
    assert_eq!(r, Err(RecognitionError::EmptyResult));
}

#[test]
fn fragments_without_text_are_skipped() {
    let out = b"{\"code\":100,\"data\":[{\"text\":\"A\"},{\"confidence\":3},{\"text\":\"B\"}]}";
    let r = parse_recognition_output(OK_EXIT, out, b"", false);
    assert_eq!(r, Ok(String::from("A B")));
}

#[test]
fn nonzero_exit_reports_decoded_stderr() {
    // 0xC4 0xE3 is one GBK-encoded CJK character; a byte-identity decode
    // would hand back something else entirely.
    let stderr = [0xC4u8, 0xE3, b'!'];
    let r = parse_recognition_output(BAD_EXIT, b"", &stderr, false);
    match r {
        Err(RecognitionError::ProcessFailure(msg)) => assert_eq!(msg, "你!"),
        other => panic!("expected a process failure, got {:?}", other),
    }
}

#[test]
fn missing_code_reads_as_unknown_engine_error() {
    let r = parse_recognition_output(OK_EXIT, b"{}", b"", false);
    assert_eq!(
        r,
        Err(RecognitionError::EngineReported(String::from(
            "the recognition engine reported an unspecified error"
        )))
    );
}

#[test]
fn reply_without_fragment_array_is_empty() {
    let reply = RecognitionReply { code: Some(100), texts: None, message: None };
    let r = recognition_from_reply(&reply, false);
    assert_eq!(r, Err(RecognitionError::EmptyResult));
}

#[test]
fn translation_code_200_returns_the_text() {
    let out = b"{\"code\":200,\"translated_text\":\"bonjour\"}";
    let r = parse_translation_output(OK_EXIT, out, b"");
    assert_eq!(r, Ok(String::from("bonjour")));
}

#[test]
fn translation_code_200_without_text_is_missing_text() {
    let r = parse_translation_output(OK_EXIT, b"{\"code\":200}", b"");
    assert_eq!(r, Err(TranslationError::MissingText));
}

#[test]
fn translation_error_code_carries_the_engine_message() {
    let out = b"{\"code\":500,\"error_message\":\"no such language\"}";
    let r = parse_translation_output(OK_EXIT, out, b"");
    assert_eq!(
        r,
        Err(TranslationError::EngineReported(String::from("no such language")))
    );
}

#[test]
fn translation_garbage_fails_to_parse() {
    let r = parse_translation_output(OK_EXIT, b"never json", b"");
    assert_eq!(r, Err(TranslationError::ParseFailure));
}

#[test]
fn translation_nonzero_exit_reports_stderr() {
    let r = parse_translation_output(BAD_EXIT, b"", b"boom");
    assert_eq!(r, Err(TranslationError::ProcessFailure(String::from("boom"))));
}

#[test]
fn source_language_pairs_with_the_target() {
    assert_eq!(source_lang_for("en"), "zh");
    assert_eq!(source_lang_for("zh"), "en");
    assert_eq!(source_lang_for("fr"), "en");
}

#[test]
fn error_messages_render_for_notifications() {
    assert_eq!(
        RecognitionError::ProcessFailure(String::from("oom")).message(),
        "the recognition engine failed: oom"
    );
    assert_eq!(
        RecognitionError::NotInstalled.message(),
        "the recognition engine is not installed"
    );
    assert_eq!(TranslationError::Disabled.message(), "translation is switched off");
}
