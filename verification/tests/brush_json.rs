use mypaint_rs::brush_json::{check_brush_header, check_brush_json, BrushJsonError, BrushJsonHeader};

#[test]
fn version_three_with_settings_is_accepted() {
    let text = r#"{"version": 3, "settings": {"radius_logarithmic": {"base_value": 2.0, "inputs": {}}}}"#;
    assert!(check_brush_json(text).is_ok());
    assert!(check_brush_json(r#"{"settings": {}, "version": 3}"#).is_ok());
}

#[test]
fn text_that_is_not_json_is_a_parse_error() {
    assert!(matches!(check_brush_json("{ not json"), Err(BrushJsonError::Parse(_))));
    assert!(matches!(check_brush_json(""), Err(BrushJsonError::Parse(_))));
    assert!(matches!(check_brush_json(r#"{"version": 3} trailing"#), Err(BrushJsonError::Parse(_))));
}

#[test]
fn missing_or_non_integer_version_is_refused() {
    assert!(matches!(check_brush_json(r#"{"settings": {}}"#), Err(BrushJsonError::MissingVersion)));
    assert!(matches!(check_brush_json(r#"{"version": "3", "settings": {}}"#), Err(BrushJsonError::MissingVersion)));
    assert!(matches!(check_brush_json(r#"{"version": 3.5, "settings": {}}"#), Err(BrushJsonError::MissingVersion)));
    assert!(matches!(check_brush_json("[3]"), Err(BrushJsonError::MissingVersion)));
}

#[test]
fn other_versions_are_unsupported() {
    assert!(matches!(check_brush_json(r#"{"version": 2, "settings": {}}"#), Err(BrushJsonError::UnsupportedVersion(2))));
    assert!(matches!(check_brush_json(r#"{"version": -1}"#), Err(BrushJsonError::UnsupportedVersion(-1))));
}

#[test]
fn settings_must_be_an_object() {
    assert!(matches!(check_brush_json(r#"{"version": 3}"#), Err(BrushJsonError::MissingSettings)));
    assert!(matches!(check_brush_json(r#"{"version": 3, "settings": []}"#), Err(BrushJsonError::MissingSettings)));
}

#[test]
fn header_checks_go_version_first() {
    let h = |version, settings_is_object| BrushJsonHeader { version, settings_is_object };
    assert!(matches!(check_brush_header(&h(None, false)), Err(BrushJsonError::MissingVersion)));
    assert!(matches!(check_brush_header(&h(Some(4), false)), Err(BrushJsonError::UnsupportedVersion(4))));
    assert!(matches!(check_brush_header(&h(Some(3), false)), Err(BrushJsonError::MissingSettings)));
    assert!(check_brush_header(&h(Some(3), true)).is_ok());
}

#[test]
fn test_json_from_string_version_check() {
    let bad = r#"{"version": 2, "settings": {}}"#;
    assert!(check_brush_json(bad).is_err());
    let empty = r#"{"version": 3, "settings": {}}"#;
    assert!(check_brush_json(empty).is_ok());
}
