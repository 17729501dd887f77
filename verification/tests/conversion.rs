use toml2json::failure::Failure;
use toml2json::transcode::{rejected, toml_to_json, transcoded, OUTPUT_BUFFER_CAPACITY};

fn json_of(input: &str) -> String {
    match toml_to_json(input) {
        Ok(bytes) => String::from_utf8(bytes).unwrap(),
        Err(failure) => panic!("expected JSON, got: {}", failure.message()),
    }
}

#[test]
fn key_value_round_trip() {
    assert_eq!(json_of("key = \"value\""), "{\"key\":\"value\"}");
}

#[test]
fn empty_document_is_an_empty_object() {
    assert_eq!(json_of(""), "{}");
    assert_eq!(json_of("# only a comment\n"), "{}");
}

#[test]
fn keys_keep_the_order_of_the_document() {
    assert_eq!(json_of("zebra = 1\napple = 2\nmango = 3\n"), "{\"zebra\":1,\"apple\":2,\"mango\":3}");
}

#[test]
fn scalars_map_to_their_json_counterparts() {
    let input = "text = \"hi\"\ncount = -42\nratio = 1.5\nyes = true\nno = false\n";
    assert_eq!(
        json_of(input),
        "{\"text\":\"hi\",\"count\":-42,\"ratio\":1.5,\"yes\":true,\"no\":false}"
    );
}

#[test]
fn tables_become_objects_and_arrays_stay_arrays() {
    let input = "list = [1, 2, 3]\n\n[server]\nhost = \"localhost\"\nports = [80, 443]\n\n[server.tls]\nenabled = true\n";
    assert_eq!(
        json_of(input),
        "{\"list\":[1,2,3],\"server\":{\"host\":\"localhost\",\"ports\":[80,443],\"tls\":{\"enabled\":true}}}"
    );
}

#[test]
fn arrays_of_tables_become_arrays_of_objects() {
    let input = "[[fruit]]\nname = \"apple\"\n\n[[fruit]]\nname = \"pear\"\n";
    assert_eq!(json_of(input), "{\"fruit\":[{\"name\":\"apple\"},{\"name\":\"pear\"}]}");
}

#[test]
fn output_is_compact() {
    let json = json_of("a = [ 1 ,  2 ]\nb = { c = \"d e\" }\n");
    assert_eq!(json, "{\"a\":[1,2],\"b\":{\"c\":\"d e\"}}");
    assert!(!json.contains('\n'));
}

#[test]
fn strings_are_escaped_for_json() {
    assert_eq!(json_of("s = 'say \"hi\"\\now'"), "{\"s\":\"say \\\"hi\\\"\\\\now\"}");
}

#[test]
fn numbers_are_written_in_decimal() {
    assert_eq!(json_of("h = 0x10\no = 0o17\nb = 0b101\ne = 1e3\n"), "{\"h\":16,\"o\":15,\"b\":5,\"e\":1000.0}");
}

#[test]
fn datetime_keeps_its_text() {
    let json = json_of("d = 1979-05-27T07:32:00Z\n");
    assert!(json.starts_with("{\"d\":"));
    assert!(json.contains("\"1979-05-27T07:32:00Z\""));
}

#[test]
fn output_is_not_the_input() {
    let input = "key = \"value\"";
    let bytes = toml_to_json(input).unwrap();
    assert_ne!(bytes, input.as_bytes());
}

#[test]
fn invalid_document_is_a_parse_failure() {
    let failure = toml_to_json("key = ").unwrap_err();
    assert!(matches!(failure, Failure::Parse { .. }));
    let message = failure.message();
    assert!(message.starts_with("Parse failed: TOML parse error at line 1"));
    assert!(message.contains("key = "));
    assert_eq!(failure.exit_code(), 1);
}

#[test]
fn parse_failure_carries_the_diagnostic() {
    let failure = toml_to_json("a = 1\na = 2\n").unwrap_err();
    match &failure {
        Failure::Parse { cause } => {
            assert!(cause.contains("line 2"));
            assert!(!cause.is_empty());
            assert_eq!(failure.message(), format!("Parse failed: {cause}"));
        }
        other => panic!("expected a parse failure, got: {}", other.message()),
    }
}

#[test]
fn number_beyond_every_integer_is_a_transcode_failure() {
    let input = "n = 999999999999999999999999999999999999999999999999\n";
    let failure = toml_to_json(input).unwrap_err();
    match &failure {
        Failure::Transcode { cause } => {
            assert!(cause.contains("integer number overflowed"));
            assert_eq!(failure.message(), format!("Transcode failed: {cause}"));
        }
        other => panic!("expected a transcode failure, got: {}", other.message()),
    }
    assert_eq!(failure.exit_code(), 1);
}

#[test]
fn converting_twice_gives_the_same_bytes() {
    let input = "title = \"t\"\n[owner]\nname = \"n\"\ntags = [\"a\", \"b\"]\n";
    let first = toml_to_json(input).unwrap();
    let second = toml_to_json(input).unwrap();
    assert_eq!(first, second);
}

#[test]
fn failing_twice_gives_the_same_message() {
    let first = toml_to_json("= 1").unwrap_err().message();
    let second = toml_to_json("= 1").unwrap_err().message();
    assert_eq!(first, second);
}

#[test]
fn rejected_is_a_parse_failure_with_the_diagnostic() {
    let failure = rejected("unexpected end of input".to_string());
    match &failure {
        Failure::Parse { cause } => assert_eq!(cause, "unexpected end of input"),
        other => panic!("expected a parse failure, got: {}", other.message()),
    }
    assert_eq!(failure.message(), "Parse failed: unexpected end of input");
}

#[test]
fn transcoded_hands_the_bytes_through() {
    let bytes = transcoded(Ok(b"{\"a\":1}".to_vec())).unwrap();
    assert_eq!(bytes, b"{\"a\":1}".to_vec());
    let bytes = transcoded(Ok(Vec::new())).unwrap();
    assert!(bytes.is_empty());
}

#[test]
fn transcoded_turns_an_error_into_a_transcode_failure() {
    let failure = transcoded(Err("key must be a string".to_string())).unwrap_err();
    match &failure {
        Failure::Transcode { cause } => assert_eq!(cause, "key must be a string"),
        other => panic!("expected a transcode failure, got: {}", other.message()),
    }
    assert_eq!(failure.message(), "Transcode failed: key must be a string");
}

#[test]
fn output_buffer_holds_a_quarter_mebibyte() {
    assert_eq!(OUTPUT_BUFFER_CAPACITY, 256 * 1024);
}
