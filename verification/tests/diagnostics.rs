use reml_frontend::diagnostic::formatter::timestamp_from_clock;
use reml_frontend::diagnostic::json::effective_codes;
use reml_frontend::diagnostic::unicode::clamp_span;
use reml_frontend::span::Span;
use reml_frontend::diagnostic::filter::{is_experimental_label, should_downgrade_experimental};
use reml_frontend::value::JsonValue;
use reml_frontend::diagnostic::formatter::{
    channel_from_prefix, compact_timestamp, compute_build_id, current_timestamp,
    normalize_timestamp, timestamp_from_unix_seconds,
};
use reml_frontend::diagnostic::json::{
    classify_expected_token, default_expected_message, non_blank_string, LineIndex,
};

#[test]
fn timestamps_of_known_instants() {
    assert_eq!(timestamp_from_unix_seconds(0), "1970-01-01T00:00:00Z");
    assert_eq!(timestamp_from_unix_seconds(951_782_400), "2000-02-29T00:00:00Z");
    assert_eq!(timestamp_from_unix_seconds(1_700_000_000), "2023-11-14T22:13:20Z");
    assert_eq!(timestamp_from_unix_seconds(-1), "1969-12-31T23:59:59Z");
    assert_eq!(timestamp_from_unix_seconds(86_399), "1970-01-01T23:59:59Z");
    assert_eq!(timestamp_from_unix_seconds(4_107_542_400), "2100-03-01T00:00:00Z");
}

#[test]
fn current_timestamp_has_the_documented_shape() {
    let now = current_timestamp();
    let bytes = now.as_bytes();
    assert_eq!(bytes.len(), 20);
    assert_eq!(bytes[4], b'-');
    assert_eq!(bytes[7], b'-');
    assert_eq!(bytes[10], b'T');
    assert_eq!(bytes[13], b':');
    assert_eq!(bytes[16], b':');
    assert_eq!(bytes[19], b'Z');
    assert!(now.as_str() > "2020-01-01T00:00:00Z");
}

#[test]
fn normalize_timestamp_keeps_given_text() {
    assert_eq!(normalize_timestamp("2024-05-06T07:08:09Z"), "2024-05-06T07:08:09Z");
    assert_eq!(normalize_timestamp(" x "), " x ");
    let filled = normalize_timestamp("   ");
    assert_eq!(filled.len(), 20);
    assert!(filled.ends_with('Z'));
}

#[test]
fn compact_timestamps_and_build_ids() {
    assert_eq!(compact_timestamp("2024-01-02T03:04:05Z"), "20240102T030405Z");
    assert_eq!(compact_timestamp("--::"), "00000000000000");
    assert_eq!(compact_timestamp(""), "00000000000000");
    assert_eq!(compact_timestamp("- :"), "00000000000000");
    assert_eq!(compute_build_id("2024-01-02T03:04:05Z", None, None), "20240102T030405Z");
    assert_eq!(
        compute_build_id("2024-01-02T03:04:05Z", None, Some("abc1234")),
        "20240102T030405Z-abc1234"
    );
    assert_eq!(compute_build_id("2024-01-02T03:04:05Z", Some("b-7"), Some("abc")), "b-7");
    assert_eq!(compute_build_id("2024-01-02", Some("  "), Some(" ")), "20240102");
}

#[test]
fn channels_from_prefixes() {
    assert_eq!(channel_from_prefix("auto", None), "cli");
    assert_eq!(channel_from_prefix("  ", Some("ci")), "ci");
    assert_eq!(channel_from_prefix("auto", Some("nightly")), "nightly");
    assert_eq!(channel_from_prefix(" legacy ", Some("ci")), "legacy-import");
    assert_eq!(channel_from_prefix(" lsp ", None), "lsp");
}

#[test]
fn experimental_labels_downgrade_unless_acknowledged() {
    assert!(is_experimental_label("Experimental"));
    assert!(is_experimental_label("stage:EXPERIMENTAL-2"));
    assert!(!is_experimental_label("beta"));
    let stage = |required: &str, actual: &str| {
        JsonValue::Object(vec![(
            "stage".to_string(),
            JsonValue::Object(vec![
                ("required".to_string(), JsonValue::Str(required.to_string())),
                ("actual".to_string(), JsonValue::Str(actual.to_string())),
            ]),
        )])
    };
    let effects = vec![("effects".to_string(), stage("stable", "Experimental"))];
    assert!(should_downgrade_experimental(false, &effects));
    assert!(!should_downgrade_experimental(true, &effects));
    let bridge = vec![("bridge".to_string(), stage("experimental", "stable"))];
    assert!(should_downgrade_experimental(false, &bridge));
    let capability = vec![("capability".to_string(), stage("beta", "stable"))];
    assert!(!should_downgrade_experimental(false, &capability));
    let other = vec![("runtime".to_string(), stage("experimental", "experimental"))];
    assert!(!should_downgrade_experimental(false, &other));
    let flat = vec![(
        "effects.contract.stage.actual".to_string(),
        JsonValue::Str("EXPERIMENTAL".to_string()),
    )];
    assert!(should_downgrade_experimental(false, &flat));
    let not_a_string = vec![("effect.stage.required".to_string(), JsonValue::Other)];
    assert!(!should_downgrade_experimental(false, &not_a_string));
    let stage_not_object = vec![(
        "effects".to_string(),
        JsonValue::Object(vec![("stage".to_string(), JsonValue::Str("experimental".to_string()))]),
    )];
    assert!(!should_downgrade_experimental(false, &stage_not_object));
    assert!(!should_downgrade_experimental(false, &Vec::new()));
}

#[test]
fn expected_token_classes() {
    assert_eq!(classify_expected_token("  "), "token");
    assert_eq!(classify_expected_token("identifier"), "class");
    assert_eq!(classify_expected_token("upper-identifier"), "class");
    assert_eq!(classify_expected_token("int-literal"), "class");
    assert_eq!(classify_expected_token("fn"), "keyword");
    assert_eq!(classify_expected_token(" let "), "keyword");
    assert_eq!(classify_expected_token("EOF"), "class");
    assert_eq!(classify_expected_token("->"), "token");
    assert_eq!(classify_expected_token("Foo"), "token");
}

#[test]
fn default_expected_messages() {
    assert_eq!(default_expected_message(&Vec::new()), "ここで解釈可能な構文が見つかりません");
    assert_eq!(
        default_expected_message(&vec!["fn".to_string(), ")".to_string()]),
        "ここで`fn`、`)`のいずれかが必要です"
    );
    assert_eq!(default_expected_message(&vec!["x".to_string()]), "ここで`x`のいずれかが必要です");
}

#[test]
fn non_blank_strings() {
    let text = "abc".to_string();
    let blank = " \t".to_string();
    assert_eq!(non_blank_string(Some(&text)), Some("abc".to_string()));
    assert_eq!(non_blank_string(Some(&blank)), None);
    assert_eq!(non_blank_string(None), None);
}

#[test]
fn line_index_positions() {
    let index = LineIndex::new("ab\ncd\n\nxyz");
    assert_eq!(index.line_col(0), (1, 1));
    assert_eq!(index.line_col(1), (1, 2));
    assert_eq!(index.line_col(3), (2, 1));
    assert_eq!(index.line_col(5), (2, 3));
    assert_eq!(index.line_col(6), (3, 1));
    assert_eq!(index.line_col(7), (4, 1));
    assert_eq!(index.line_col(9), (4, 3));
    assert_eq!(index.line_col(100), (4, 4));
    let wide = LineIndex::new("é\nb");
    assert_eq!(wide.line_col(3), (2, 1));
    assert_eq!(LineIndex::new("").line_col(0), (1, 1));
}

#[test]
fn effective_codes_fall_back_to_code_then_unknown() {
    let codes = vec!["a.b".to_string(), "c.d".to_string()];
    let code = "x.y".to_string();
    assert_eq!(effective_codes(&codes, Some(&code)), codes);
    assert_eq!(effective_codes(&Vec::new(), Some(&code)), vec!["x.y".to_string()]);
    assert_eq!(effective_codes(&Vec::new(), None), vec!["unknown".to_string()]);
}

#[test]
fn clamped_spans() {
    assert_eq!(clamp_span(Span { start: 2, end: 5 }, 10), (2, 5));
    assert_eq!(clamp_span(Span { start: 5, end: 2 }, 10), (2, 5));
    assert_eq!(clamp_span(Span { start: 8, end: 20 }, 10), (8, 10));
    assert_eq!(clamp_span(Span { start: 12, end: 20 }, 10), (10, 10));
}

#[test]
fn lines_count_newlines_and_columns_count_bytes() {
    let text = "ab\ncé\nz";
    let index = LineIndex::new(text);
    for (offset, _) in text.char_indices().chain(std::iter::once((text.len(), ' '))) {
        let before = &text[..offset];
        let line = 1 + before.matches('\n').count() as u32;
        let line_begin = before.rfind('\n').map_or(0, |i| i + 1);
        let column = 1 + (offset - line_begin) as u32;
        assert_eq!(index.line_col(offset), (line, column));
    }
    assert_eq!(index.line_col(4), (2, 2));
    assert_eq!(index.line_col(100), (3, 2));
}

#[test]
fn clock_readings_give_timestamps() {
    assert_eq!(timestamp_from_clock(None), "1970-01-01T00:00:00Z");
    assert_eq!(timestamp_from_clock(Some(86_400 + 3_661)), "1970-01-02T01:01:01Z");
    assert_eq!(timestamp_from_clock(Some(1_704_164_645)), "2024-01-02T03:04:05Z");
}
