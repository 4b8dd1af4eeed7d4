use monitor_backend::ml::{format_activity_class, get_risk_color, get_risk_level, is_night_hour, MLError};

#[test]
fn test_format_activity_class() {
    assert_eq!(format_activity_class("FALL_DETECTED"), "Fall Detected");
    assert_eq!(format_activity_class("SLEEPING"), "Sleeping");
}

#[test]
fn test_get_risk_level() {
    assert_eq!(get_risk_level("SLEEPING"), "LOW");
    assert_eq!(get_risk_level("FALL_DETECTED"), "CRITICAL");
}

#[test]
fn display_form_edge_cases() {
    assert_eq!(format_activity_class(""), "");
    assert_eq!(format_activity_class("__a__b__"), "A B");
    assert_eq!(format_activity_class("fall_risk"), "Fall Risk");
    assert_eq!(format_activity_class("ßX"), "SSx");
    assert_eq!(format_activity_class("  rEsTlEsS  "), "Restless");
}

#[test]
fn risk_tables() {
    assert_eq!(get_risk_level("RESTING"), "LOW");
    assert_eq!(get_risk_level("ACTIVE"), "NORMAL");
    assert_eq!(get_risk_level("RESTLESS"), "MEDIUM");
    assert_eq!(get_risk_level("FALL_RISK"), "HIGH");
    assert_eq!(get_risk_level("sleeping"), "UNKNOWN");
    assert_eq!(get_risk_color("SLEEPING"), "#22c55e");
    assert_eq!(get_risk_color("FALL_DETECTED"), "#dc2626");
    assert_eq!(get_risk_color("other"), "#6b7280");
}

#[test]
fn night_hours() {
    assert!(is_night_hour(22));
    assert!(is_night_hour(5));
    assert!(!is_night_hour(6));
    assert!(!is_night_hour(21));
}

#[test]
fn ml_error_text() {
    assert_eq!(MLError::ParseError("bad".to_string()).message(), "ML parse error: bad");
    assert_eq!(MLError::ConnectionError("x".to_string()).message(), "ML connection error: x");
}
