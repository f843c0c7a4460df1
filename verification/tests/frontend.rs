use masterror::BrowserConsoleError;

#[test]
fn clone_creates_identical_copy() {
    let err1 = BrowserConsoleError::Serialization {
        message: "test".to_string()
    };
    let err2 = err1.clone();
    assert_eq!(err1, err2);
    let err3 = BrowserConsoleError::ConsoleMethodNotCallable;
    let err4 = err3.clone();
    assert_eq!(err3, err4);
}

#[test]
fn context_returns_none_for_unit_variants() {
    assert_eq!(
        BrowserConsoleError::ConsoleMethodNotCallable.context(),
        None
    );
    assert_eq!(BrowserConsoleError::UnsupportedTarget.context(), None);
}

#[test]
fn context_returns_message_for_serialization() {
    let err = BrowserConsoleError::Serialization {
        message: "JSON parse error".to_string()
    };
    assert_eq!(err.context(), Some("JSON parse error"));
}

#[test]
fn context_returns_message_for_console_invocation() {
    let err = BrowserConsoleError::ConsoleInvocation {
        message: "TypeError: null reference".to_string()
    };
    assert_eq!(err.context(), Some("TypeError: null reference"));
}

#[test]
fn partial_eq_compares_variants_correctly() {
    let serialization1 = BrowserConsoleError::Serialization {
        message: "error1".to_string()
    };
    let serialization2 = BrowserConsoleError::Serialization {
        message: "error1".to_string()
    };
    let serialization3 = BrowserConsoleError::Serialization {
        message: "error2".to_string()
    };
    assert_eq!(serialization1, serialization2);
    assert_ne!(serialization1, serialization3);
    assert_ne!(serialization1, BrowserConsoleError::UnsupportedTarget);
}

#[test]
fn debug_format_includes_variant_and_message() {
    let err = BrowserConsoleError::ConsoleUnavailable {
        message: "console is undefined".to_string()
    };
    let debug_str = format!("{err:?}");
    assert!(debug_str.contains("ConsoleUnavailable"));
    assert!(debug_str.contains("console is undefined"));
}

#[test]
fn context_returns_optional_message() {
    let serialization = BrowserConsoleError::Serialization {
        message: "encode failed".to_owned()
    };
    assert_eq!(serialization.context(), Some("encode failed"));

    let invocation = BrowserConsoleError::ConsoleInvocation {
        message: "js error".to_owned()
    };
    assert_eq!(invocation.context(), Some("js error"));

    assert_eq!(
        BrowserConsoleError::ConsoleMethodNotCallable.context(),
        None
    );
    assert_eq!(BrowserConsoleError::UnsupportedTarget.context(), None);
}

#[test]
fn context_returns_message_for_console_unavailable() {
    let err = BrowserConsoleError::ConsoleUnavailable {
        message: "missing console".to_owned()
    };
    assert_eq!(err.context(), Some("missing console"));
}

#[test]
fn context_returns_message_for_console_error_unavailable() {
    let err = BrowserConsoleError::ConsoleErrorUnavailable {
        message: "error method missing".to_owned()
    };
    assert_eq!(err.context(), Some("error method missing"));
}

#[test]
fn display_formats_serialization_error() {
    let err = BrowserConsoleError::Serialization {
        message: "json fail".to_owned()
    };
    let display = err.to_string();
    assert!(display.contains("failed to serialize"));
    assert!(display.contains("json fail"));
}

#[test]
fn display_formats_console_unavailable() {
    let err = BrowserConsoleError::ConsoleUnavailable {
        message: "no console".to_owned()
    };
    let display = err.to_string();
    assert!(display.contains("not available"));
    assert!(display.contains("no console"));
}

#[test]
fn display_formats_console_error_unavailable() {
    let err = BrowserConsoleError::ConsoleErrorUnavailable {
        message: "no error fn".to_owned()
    };
    let display = err.to_string();
    assert!(display.contains("failed to access"));
    assert!(display.contains("no error fn"));
}

#[test]
fn display_formats_console_method_not_callable() {
    let err = BrowserConsoleError::ConsoleMethodNotCallable;
    let display = err.to_string();
    assert!(display.contains("not callable"));
}

#[test]
fn display_formats_console_invocation_error() {
    let err = BrowserConsoleError::ConsoleInvocation {
        message: "call failed".to_owned()
    };
    let display = err.to_string();
    assert!(display.contains("failed to invoke"));
    assert!(display.contains("call failed"));
}

#[test]
fn display_formats_unsupported_target() {
    let err = BrowserConsoleError::UnsupportedTarget;
    let display = err.to_string();
    assert!(display.contains("not supported"));
}

#[test]
fn debug_trait_works() {
    let err = BrowserConsoleError::Serialization {
        message: "test".to_owned()
    };
    let debug = format!("{:?}", err);
    assert!(debug.contains("Serialization"));
}

#[test]
fn partial_eq_works() {
    let err1 = BrowserConsoleError::UnsupportedTarget;
    let err2 = BrowserConsoleError::UnsupportedTarget;
    assert_eq!(err1, err2);

    let err3 = BrowserConsoleError::ConsoleMethodNotCallable;
    assert_ne!(err1, err3);
}
