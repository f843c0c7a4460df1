use std::borrow::Cow;

use masterror::diagnostics::{DiagnosticVisibility, Diagnostics, DocLink, Hint, Suggestion};

#[test]
fn visibility_ordering() {
    assert!(DiagnosticVisibility::DevOnly < DiagnosticVisibility::Internal);
    assert!(DiagnosticVisibility::Internal < DiagnosticVisibility::Public);
}

#[test]
fn hint_constructors() {
    let hint = Hint::new("test");
    assert_eq!(hint.visibility, DiagnosticVisibility::DevOnly);

    let public = Hint::public("test");
    assert_eq!(public.visibility, DiagnosticVisibility::Public);

    let internal = Hint::internal("test");
    assert_eq!(internal.visibility, DiagnosticVisibility::Internal);
}

#[test]
fn suggestion_constructors() {
    let suggestion = Suggestion::new("do this");
    assert!(suggestion.command.is_none());

    let with_cmd = Suggestion::with_command("do this", "some command");
    assert_eq!(with_cmd.command.as_deref(), Some("some command"));
}

#[test]
fn doc_link_constructors() {
    let link = DocLink::new("https://example.com");
    assert!(link.title.is_none());
    assert_eq!(link.visibility, DiagnosticVisibility::Public);

    let titled = DocLink::with_title("https://example.com", "Example");
    assert_eq!(titled.title.as_deref(), Some("Example"));
}

#[test]
fn diagnostics_is_empty() {
    let diag = Diagnostics::new();
    assert!(diag.is_empty());

    let mut diag = Diagnostics::new();
    diag.hints.push(Hint::new("test"));
    assert!(!diag.is_empty());
}

#[test]
fn diagnostics_visibility_filtering() {
    let mut diag = Diagnostics::new();
    diag.hints.push(Hint::new("dev hint"));
    diag.hints.push(Hint::internal("internal hint"));
    diag.hints.push(Hint::public("public hint"));

    // DevOnly level sees all
    let dev_hints: Vec<_> = diag.visible_hints(DiagnosticVisibility::DevOnly).collect();
    assert_eq!(dev_hints.len(), 3);

    // Internal level sees internal + public
    let internal_hints: Vec<_> = diag.visible_hints(DiagnosticVisibility::Internal).collect();
    assert_eq!(internal_hints.len(), 2);

    // Public level sees only public
    let public_hints: Vec<_> = diag.visible_hints(DiagnosticVisibility::Public).collect();
    assert_eq!(public_hints.len(), 1);
    assert_eq!(public_hints[0].message, "public hint");
}

#[test]
fn diagnostics_has_visible_content() {
    let mut diag = Diagnostics::new();
    assert!(!diag.has_visible_content(DiagnosticVisibility::DevOnly));

    diag.hints.push(Hint::new("dev only"));
    assert!(diag.has_visible_content(DiagnosticVisibility::DevOnly));
    assert!(!diag.has_visible_content(DiagnosticVisibility::Internal));
    assert!(!diag.has_visible_content(DiagnosticVisibility::Public));

    diag.suggestions
        .push(Suggestion::new("fix it").visibility(DiagnosticVisibility::Public));
    assert!(diag.has_visible_content(DiagnosticVisibility::Public));
}

#[test]
fn diagnostics_doc_link_visibility() {
    let mut diag = Diagnostics::new();
    diag.doc_link = Some(DocLink::new("https://example.com"));

    assert!(
        diag.visible_doc_link(DiagnosticVisibility::Public)
            .is_some()
    );
    assert!(
        diag.visible_doc_link(DiagnosticVisibility::Internal)
            .is_some()
    );
    assert!(
        diag.visible_doc_link(DiagnosticVisibility::DevOnly)
            .is_some()
    );

    // Change to internal visibility
    diag.doc_link =
        Some(DocLink::new("https://example.com").visibility(DiagnosticVisibility::Internal));
    assert!(
        diag.visible_doc_link(DiagnosticVisibility::Internal)
            .is_some()
    );
    assert!(
        diag.visible_doc_link(DiagnosticVisibility::Public)
            .is_none()
    );
}

#[test]
fn cow_static_str() {
    let hint = Hint::new("static string");
    assert!(matches!(hint.message, Cow::Borrowed(_)));

    let hint = Hint::new(String::from("owned string"));
    assert!(matches!(hint.message, Cow::Owned(_)));
}

#[test]
fn hints_keep_borrowed_and_owned_messages() {
    let hint = Hint::new("test");
    assert_eq!(hint.message, "test");
    assert!(matches!(Hint::new("static string").message, std::borrow::Cow::Borrowed(_)));
    assert!(matches!(Hint::new(String::from("owned string")).message, std::borrow::Cow::Owned(_)));
}
