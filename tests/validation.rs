use monitor_backend::validation::{
    check_sql_injection, check_xss, sanitize_html, sanitize_string, strip_html_tags,
    validate_email, validate_fhir_coding_system, validate_fhir_resource_type, validate_length,
    validate_limit, validate_motion_level, validate_observation_status, validate_sound_level,
    validate_text_input, validate_time_range_minutes, validate_username, ValidationError,
};

#[test]
fn test_validate_username() {
    assert!(validate_username("john_doe").is_ok());
    assert!(validate_username("user123").is_ok());
    assert!(validate_username("ab").is_err());
    assert!(validate_username("a".repeat(31).as_str()).is_err());
    assert!(validate_username("user@name").is_err());
}

#[test]
fn test_validate_email() {
    assert!(validate_email("user@example.com").is_ok());
    assert!(validate_email("test.user+tag@domain.co.uk").is_ok());
    assert!(validate_email("invalid").is_err());
    assert!(validate_email("@example.com").is_err());
}

#[test]
fn test_sql_injection_detection() {
    assert!(check_sql_injection("normal text").is_ok());
    assert!(check_sql_injection("SELECT * FROM users").is_err());
    assert!(check_sql_injection("'; DROP TABLE users--").is_err());
    assert!(check_sql_injection("1 OR 1=1").is_ok());
}

#[test]
fn test_xss_detection() {
    assert!(check_xss("normal text").is_ok());
    assert!(check_xss("<script>alert('xss')</script>").is_err());
    assert!(check_xss("javascript:alert(1)").is_err());
    assert!(check_xss("<img onerror='alert(1)'>").is_err());
}

#[test]
fn test_sanitize_html() {
    assert_eq!(sanitize_html("<script>"), "&lt;script&gt;");
    assert_eq!(sanitize_html("A & B"), "A &amp; B");
    assert_eq!(sanitize_html("\"quoted\""), "&quot;quoted&quot;");
}

#[test]
fn test_validate_motion_level() {
    assert!(validate_motion_level(50).is_ok());
    assert!(validate_motion_level(0).is_ok());
    assert!(validate_motion_level(100).is_ok());
    assert!(validate_motion_level(-1).is_err());
    assert!(validate_motion_level(101).is_err());
}

#[test]
fn test_validate_fhir_resource_type() {
    assert!(validate_fhir_resource_type("Observation").is_ok());
    assert!(validate_fhir_resource_type("Bundle").is_ok());
    assert!(validate_fhir_resource_type("InvalidType").is_err());
}

#[test]
fn test_validate_observation_status() {
    assert!(validate_observation_status("final").is_ok());
    assert!(validate_observation_status("preliminary").is_ok());
    assert!(validate_observation_status("invalid").is_err());
}

#[test]
fn username_errors_name_their_cause() {
    assert!(matches!(validate_username(""), Err(ValidationError::InvalidUsername(_))));
    assert!(matches!(validate_username("ab"), Err(ValidationError::TooShort(_))));
    assert!(matches!(validate_username(&"a".repeat(31)), Err(ValidationError::TooLong(_))));
    assert!(matches!(validate_username("user@name"), Err(ValidationError::InvalidUsername(_))));
    assert!(validate_username(&"a".repeat(30)).is_ok());
    assert!(validate_username("abc").is_ok());
    assert!(validate_username("a-b_C9").is_ok());
    // four bytes, but a character outside the allowed set
    assert!(matches!(validate_username("abé"), Err(ValidationError::InvalidUsername(_))));
    match validate_username("ab") {
        Err(e) => assert_eq!(e.message(), "Input too short: Username must be at least 3 characters"),
        Ok(()) => panic!("accepted a short username"),
    }
}

#[test]
fn email_shapes() {
    assert!(matches!(validate_email(""), Err(ValidationError::InvalidEmail(_))));
    let long = format!("{}@example.com", "a".repeat(250));
    assert!(matches!(validate_email(&long), Err(ValidationError::TooLong(_))));
    assert!(validate_email("a@b.co").is_ok());
    assert!(validate_email("a@b.c").is_err());
    assert!(validate_email("a@.co").is_err());
    assert!(validate_email("a@b.c0").is_err());
    assert!(validate_email("a@@b.co").is_err());
    assert!(validate_email("a@b").is_err());
    assert!(validate_email("first.last@sub.domain.org").is_ok());
    assert!(validate_email("a b@c.de").is_err());
}

#[test]
fn sql_keywords_ignore_case() {
    assert!(check_sql_injection("hello world").is_ok());
    assert!(check_sql_injection("please UnIoN all").is_err());
    assert!(check_sql_injection("we will update you").is_err());
    assert!(check_sql_injection("").is_ok());
    // U+017F LONG S folds to 's' under the pattern engine's case folding
    assert!(check_sql_injection("\u{17F}elect").is_err());
    match check_sql_injection("drop") {
        Err(ValidationError::PotentialSQLInjection(m)) => {
            assert_eq!(m, "Input contains suspicious SQL keywords")
        }
        other => panic!("unexpected {:?}", other),
    }
}

#[test]
fn xss_markers() {
    assert!(check_xss("<script>alert(1)</script>").is_err());
    assert!(check_xss("<IFRAME src=x>").is_err());
    assert!(check_xss("body onload=go()").is_err());
    assert!(check_xss("on load").is_ok());
    assert!(check_xss("a < b").is_ok());
}

#[test]
fn sanitize_html_all_six() {
    assert_eq!(sanitize_html("&<>\"'/"), "&amp;&lt;&gt;&quot;&#x27;&#x2F;");
    assert_eq!(sanitize_html(""), "");
    assert_eq!(sanitize_html("plain"), "plain");
}

#[test]
fn strip_tags_cases() {
    assert_eq!(strip_html_tags("<b>bold</b> text"), "bold text");
    assert_eq!(strip_html_tags("a < b"), "a < b");
    assert_eq!(strip_html_tags("x<y>z<"), "xz<");
    assert_eq!(strip_html_tags("<<a>>"), ">");
    assert_eq!(strip_html_tags(""), "");
}

#[test]
fn sanitize_string_keeps_safe_characters() {
    assert_eq!(sanitize_string("Hello, <world>!"), "Hello, world");
    assert_eq!(sanitize_string("a-b_c.d@e"), "a-b_c.d@e");
    assert_eq!(sanitize_string("é 1;"), "é 1");
}

#[test]
fn length_bounds_and_messages() {
    match validate_length("ab", 3, 10, "Name") {
        Err(ValidationError::TooShort(m)) => assert_eq!(m, "Name must be at least 3 characters"),
        other => panic!("unexpected {:?}", other),
    }
    match validate_length("abcdefghijk", 3, 10, "Name") {
        Err(ValidationError::TooLong(m)) => assert_eq!(m, "Name must be at most 10 characters"),
        other => panic!("unexpected {:?}", other),
    }
    assert!(validate_length("abc", 3, 10, "Name").is_ok());
    assert!(validate_length("abcdefghij", 3, 10, "Name").is_ok());
}

#[test]
fn text_input_rejects_then_escapes() {
    assert_eq!(validate_text_input("Tom & Jerry", "note").unwrap(), "Tom &amp; Jerry");
    assert!(matches!(
        validate_text_input("<script>x</script>", "note"),
        Err(ValidationError::PotentialSQLInjection(_))
    ));
    assert!(matches!(
        validate_text_input("<iframe>", "note"),
        Err(ValidationError::PotentialXSS(_))
    ));
}

#[test]
fn sensor_ranges() {
    assert!(validate_sound_level(0).is_ok());
    assert!(validate_sound_level(1023).is_ok());
    assert!(validate_sound_level(1024).is_err());
    match validate_motion_level(-1) {
        Err(ValidationError::InvalidRange(m)) => {
            assert_eq!(m, "Motion level -1 is outside valid range (0-100)")
        }
        other => panic!("unexpected {:?}", other),
    }
    match validate_sound_level(i32::MIN) {
        Err(ValidationError::InvalidRange(m)) => {
            assert_eq!(m, "Sound level -2147483648 is outside valid range (0-1023)")
        }
        other => panic!("unexpected {:?}", other),
    }
}

#[test]
fn fhir_vocabularies() {
    assert!(validate_fhir_coding_system("http://loinc.org").is_ok());
    assert!(validate_fhir_coding_system("http://loinc.org/").is_err());
    assert!(validate_observation_status("entered-in-error").is_ok());
    assert!(validate_fhir_resource_type("observation").is_err());
    match validate_fhir_resource_type("Foo") {
        Err(ValidationError::InvalidFHIR(m)) => assert_eq!(m, "Invalid FHIR resource type: Foo"),
        other => panic!("unexpected {:?}", other),
    }
}

#[test]
fn query_parameters() {
    assert_eq!(validate_limit(10, 100).unwrap(), 10);
    assert_eq!(validate_limit(100, 100).unwrap(), 100);
    assert!(validate_limit(0, 100).is_err());
    match validate_limit(101, 100) {
        Err(ValidationError::InvalidRange(m)) => assert_eq!(m, "Limit 101 exceeds maximum of 100"),
        other => panic!("unexpected {:?}", other),
    }
    assert!(validate_time_range_minutes(1).is_ok());
    assert!(validate_time_range_minutes(10080).is_ok());
    assert!(validate_time_range_minutes(10081).is_err());
    assert!(validate_time_range_minutes(0).is_err());
}
