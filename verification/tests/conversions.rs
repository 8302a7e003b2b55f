use naga_wgsl::error::{Error, ParseError};
use naga_wgsl::span::Span;
use naga_wgsl::text::{dec_string, dec_string_signed, lines_joined};
use naga_wgsl::types::{ConflictingDiagnosticRuleError, DiagnosticAttributeNotSupportedPosition};

#[test]
fn conversion_from_conflicting_rules() {
    let rules = ConflictingDiagnosticRuleError { triggering_rule_spans: [Span::new(1, 2), Span::new(3, 4)] };
    let e: Error<'static> = Error::from(rules);
    assert!(matches!(e, Error::DiagnosticDuplicateTriggeringRule(r) if r == rules));
}

#[test]
fn conversion_from_display_plural() {
    let p = DiagnosticAttributeNotSupportedPosition::from("struct members");
    assert!(matches!(p, DiagnosticAttributeNotSupportedPosition::Other { display_plural: "struct members" }));
}

#[test]
fn conversion_of_errors_into_report() {
    let e: ParseError<'static> = vec![Box::new(Error::NotBool(Span::new(0, 1)))].into();
    match e {
        ParseError::Multiple(errors) => assert_eq!(errors.len(), 1),
        _ => panic!("expected several errors"),
    }
}

#[test]
fn text_decimal_and_lines() {
    assert_eq!(dec_string(0), "0");
    assert_eq!(dec_string(u64::MAX), u64::MAX.to_string());
    assert_eq!(dec_string_signed(i64::MIN), i64::MIN.to_string());
    assert_eq!(dec_string_signed(-5), "-5");
    assert_eq!(lines_joined(&vec![]), "");
    assert_eq!(lines_joined(&vec!["a".to_string(), String::new(), "c".to_string()]), "a\n\nc\n");
}
