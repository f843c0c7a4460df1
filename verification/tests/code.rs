use masterror::{AppCode, AppErrorKind, ParseAppCodeError};

#[test]
fn as_str_matches_json_serde_names() {
    assert_eq!(AppCode::NotFound.as_str(), "NOT_FOUND");
    assert_eq!(AppCode::RateLimited.as_str(), "RATE_LIMITED");
    assert_eq!(
        AppCode::DependencyUnavailable.as_str(),
        "DEPENDENCY_UNAVAILABLE"
    );
}

#[test]
fn mapping_from_kind_is_stable() {
    // Spot checks to guard against accidental remaps.
    assert_eq!(AppCode::from(AppErrorKind::NotFound), AppCode::NotFound);
    assert_eq!(AppCode::from(AppErrorKind::Validation), AppCode::Validation);
    assert_eq!(AppCode::from(AppErrorKind::Internal), AppCode::Internal);
    assert_eq!(AppCode::from(AppErrorKind::Timeout), AppCode::Timeout);
}

#[test]
fn display_uses_screaming_snake_case() {
    assert_eq!(AppCode::BadRequest.to_string(), "BAD_REQUEST");
}

#[test]
fn new_and_try_new_validate_input() {
    let code = AppCode::new("CUSTOM_CODE");
    assert_eq!(code.as_str(), "CUSTOM_CODE");
    assert!(AppCode::try_new(String::from("ANOTHER_CODE")).is_ok());
    assert!(AppCode::try_new(String::from("lower")).is_err());
}

#[test]
fn from_str_parses_known_codes() {
    for code in [
        AppCode::NotFound,
        AppCode::Validation,
        AppCode::Unauthorized,
        AppCode::Internal,
        AppCode::Timeout
    ] {
        let parsed = AppCode::from_str(code.as_str()).expect("parse");
        assert_eq!(parsed, code);
    }
}

#[test]
fn from_str_allows_dynamic_codes() {
    let parsed = AppCode::from_str("THIRD_PARTY_FAILURE").expect("parse");
    assert_eq!(parsed.as_str(), "THIRD_PARTY_FAILURE");
}

#[test]
fn from_str_rejects_unknown_code_shape() {
    let err = AppCode::from_str("NOT-A-REAL-CODE").unwrap_err();
    assert_eq!(err, ParseAppCodeError);
}

#[test]
fn kind_codes_are_screaming_snake_names() {
    let kinds = [
        AppErrorKind::NotFound,
        AppErrorKind::InvalidJwt,
        AppErrorKind::DependencyUnavailable,
        AppErrorKind::ExternalApi,
        AppErrorKind::Cache,
    ];
    for kind in kinds {
        let name = kind.debug_name();
        let mut snake = String::new();
        for (i, c) in name.chars().enumerate() {
            if c.is_ascii_uppercase() && i > 0 {
                snake.push('_');
            }
            snake.push(c.to_ascii_uppercase());
        }
        assert_eq!(AppCode::from(kind).as_str(), snake);
        assert!(AppCode::from(kind).is_static());
    }
}
