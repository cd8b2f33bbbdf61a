use rest_api::error::IngestError;
use rest_api::identifier::{encode_identifier, parse_identifier, CompositeIdentifier};

#[test]
fn parses_valid_identifier() {
    let id = parse_identifier("sun+moon+user42").unwrap();
    assert_eq!(id.upper_text, "sun");
    assert_eq!(id.lower_text, "moon");
    assert_eq!(id.user_id, "user42");
}

#[test]
fn parses_single_character_segments() {
    let id = parse_identifier("a+b+c").unwrap();
    assert_eq!(id.upper_text, "a");
    assert_eq!(id.lower_text, "b");
    assert_eq!(id.user_id, "c");
}

#[test]
fn parses_non_ascii_segments() {
    let id = parse_identifier("sün+möön+üser42").unwrap();
    assert_eq!(id.upper_text, "sün");
    assert_eq!(id.lower_text, "möön");
    assert_eq!(id.user_id, "üser42");
}

#[test]
fn encode_joins_segments_with_delimiter() {
    let id = CompositeIdentifier {
        upper_text: "sun".to_string(),
        lower_text: "moon".to_string(),
        user_id: "user42".to_string(),
    };
    assert_eq!(encode_identifier(&id), "sun+moon+user42");
}

#[test]
fn round_trip_encode_then_parse_is_identity() {
    let id = CompositeIdentifier {
        upper_text: "good morning".to_string(),
        lower_text: "good night".to_string(),
        user_id: "u-17".to_string(),
    };
    let raw = encode_identifier(&id);
    let back = parse_identifier(&raw).unwrap();
    assert_eq!(back.upper_text, id.upper_text);
    assert_eq!(back.lower_text, id.lower_text);
    assert_eq!(back.user_id, id.user_id);
}

#[test]
fn rejects_identifier_without_delimiter() {
    assert_eq!(parse_identifier("bad").err(), Some(IngestError::MalformedIdentifier));
}

#[test]
fn rejects_empty_input() {
    assert_eq!(parse_identifier("").err(), Some(IngestError::MalformedIdentifier));
}

#[test]
fn rejects_two_segments() {
    assert_eq!(parse_identifier("sun+moon").err(), Some(IngestError::MalformedIdentifier));
}

#[test]
fn rejects_four_segments() {
    assert_eq!(parse_identifier("sun+moon+user+extra").err(), Some(IngestError::MalformedIdentifier));
}

#[test]
fn rejects_empty_first_segment() {
    assert_eq!(parse_identifier("+moon+user42").err(), Some(IngestError::MalformedIdentifier));
}

#[test]
fn rejects_empty_middle_segment() {
    assert_eq!(parse_identifier("sun++user42").err(), Some(IngestError::MalformedIdentifier));
}

#[test]
fn rejects_empty_last_segment() {
    assert_eq!(parse_identifier("sun+moon+").err(), Some(IngestError::MalformedIdentifier));
}

#[test]
fn rejects_delimiters_only() {
    assert_eq!(parse_identifier("++").err(), Some(IngestError::MalformedIdentifier));
}

#[test]
fn delimiter_inside_a_field_is_not_representable() {
    // The grammar reserves the delimiter: a field containing it encodes to
    // a string with too many segments, which the parser rejects.
    let id = CompositeIdentifier {
        upper_text: "a+b".to_string(),
        lower_text: "moon".to_string(),
        user_id: "user42".to_string(),
    };
    let raw = encode_identifier(&id);
    assert_eq!(raw, "a+b+moon+user42");
    assert_eq!(parse_identifier(&raw).err(), Some(IngestError::MalformedIdentifier));
}
