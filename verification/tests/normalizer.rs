use echo_static::app_error::AppError;
use echo_static::json_text::error_body_json;

#[test]
fn valid_code_is_kept() {
    let (status, body) = AppError::make_err(404, String::from("missing")).into_response();
    assert_eq!(status, 404);
    assert_eq!(body, "{\"error\":\"missing\"}");
}

#[test]
fn valid_code_boundaries_are_kept() {
    let (low, _) = AppError::make_err(100, String::from("x")).into_response();
    let (high, _) = AppError::make_err(599, String::from("x")).into_response();
    assert_eq!(low, 100);
    assert_eq!(high, 599);
}

#[test]
fn invalid_code_maps_to_500() {
    for code in [0u16, 99, 600, 1000, u16::MAX] {
        let (status, body) = AppError::make_err(code, String::from("oops")).into_response();
        assert_eq!(status, 500);
        assert_eq!(body, "{\"error\":\"oops\"}");
    }
}

#[test]
fn normalizer_keeps_valid_coded_status() {
    let (status, _) = AppError::AnyStatusError(301, String::from("x")).into_response();
    assert_eq!(status, 301);
}

#[test]
fn normalizer_maps_out_of_range_coded_status_to_500() {
    for code in [0u16, 99, 600, u16::MAX] {
        let (status, _) = AppError::AnyStatusError(code, String::from("x")).into_response();
        assert_eq!(status, 500);
    }
}

#[test]
fn validation_yields_422_and_fixed_body() {
    let (status, body) = AppError::ValidationError.into_response();
    assert_eq!(status, 422);
    assert_eq!(body, "{\"error\":\"validation errors\"}");
}

#[test]
fn internal_failure_yields_500_with_detail() {
    let (status, body) = AppError::server_err(String::from("boom")).into_response();
    assert_eq!(status, 500);
    assert_eq!(body, "{\"error\":\"boom\"}");
}

#[test]
fn envelope_escapes_the_message() {
    let (_, body) = AppError::server_err(String::from("say \"hi\"\n")).into_response();
    assert_eq!(body, "{\"error\":\"say \\\"hi\\\"\\n\"}");
}

#[test]
fn envelope_matches_collaborator_serialization() {
    let messages = [
        "plain",
        "with \"quotes\" and \\backslash\\",
        "tab\there, newline\nthere",
        "control \u{1} \u{1f} del \u{7f}",
        "unicode \u{e9}\u{4e2d}",
        "",
    ];
    for msg in messages {
        let mut entries = serde_json::Map::new();
        entries.insert(String::from("error"), serde_json::Value::String(msg.to_string()));
        let expected = serde_json::to_string(&serde_json::Value::Object(entries)).unwrap();
        assert_eq!(error_body_json(msg), expected);
    }
}
