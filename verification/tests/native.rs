use ducc_reborn_serde::{DuccError, ErrorKind};

#[test]
fn to_js_conversion_has_no_context() {
    let err = DuccError::to_js_conversion("Vec", "array");
    assert!(err.context.is_empty());
    assert!(matches!(err.kind, ErrorKind::ToJsConversion { from: "Vec", to: "array" }));
    assert_eq!(err.message(), "error converting Vec to JavaScript array");
}

#[test]
fn from_js_conversion_has_no_context() {
    let err = DuccError::from_js_conversion("string", "i32");
    assert!(err.context.is_empty());
    assert!(matches!(err.kind, ErrorKind::FromJsConversion { from: "string", to: "i32" }));
    assert_eq!(err.message(), "error converting JavaScript string to i32");
}

#[test]
fn context_is_kept_oldest_first() {
    let err = DuccError::from_js_conversion("object", "Point")
        .js_err_context(String::from("field y"))
        .js_err_context(String::from("argument 2"));
    assert_eq!(err.context, vec![String::from("field y"), String::from("argument 2")]);
    assert!(matches!(err.kind, ErrorKind::FromJsConversion { from: "object", to: "Point" }));
    assert_eq!(
        err.message(),
        "error converting JavaScript object to Point: field y: argument 2"
    );
}

#[test]
fn kind_text_of_each_kind() {
    assert_eq!(
        ErrorKind::ToJsConversion { from: "a", to: "b" }.text(),
        "error converting a to JavaScript b"
    );
    assert_eq!(
        ErrorKind::FromJsConversion { from: "a", to: "b" }.text(),
        "error converting JavaScript a to b"
    );
    assert_eq!(
        ErrorKind::ScriptException { thrown: String::from("oops") }.text(),
        "JavaScript exception: oops"
    );
    assert_eq!(ErrorKind::Cancelled.text(), "execution cancelled");
    assert_eq!(
        ErrorKind::Engine { diagnostic: String::from("SyntaxError: eof") }.text(),
        "JavaScript runtime error: SyntaxError: eof"
    );
}

#[test]
fn cancelled_differs_from_a_script_exception() {
    let cancelled = DuccError { kind: ErrorKind::Cancelled, context: Vec::new() };
    let thrown = DuccError {
        kind: ErrorKind::ScriptException { thrown: String::from("execution cancelled") },
        context: Vec::new(),
    };
    assert!(matches!(cancelled.kind, ErrorKind::Cancelled));
    assert!(!matches!(thrown.kind, ErrorKind::Cancelled));
    assert_ne!(cancelled.message(), thrown.message());
}

#[test]
fn message_with_non_ascii_text() {
    let err = DuccError {
        kind: ErrorKind::Engine { diagnostic: String::from("Fehler: größer") },
        context: vec![String::from("é")],
    };
    assert_eq!(err.message(), "JavaScript runtime error: Fehler: größer: é");
}
