use naga_wgsl::error::{Error, ParseError};
use naga_wgsl::span::Span;
use naga_wgsl::types::{
    AutoConversionError, ConflictingDiagnosticRuleError, DiagnosticAttributeNotSupportedPosition,
    EnableExtension, ExpectedToken, ImplementedEnableExtension, InvalidAssignmentType, NumberError,
    Scalar, ScalarKind, Token, UnimplementedEnableExtension,
};

fn parts(p: ParseError<'_>) -> (String, Vec<(Span, String)>, Vec<String>) {
    match p {
        ParseError::Single { message, labels, notes } => (message, labels, notes),
        ParseError::Multiple(_) => panic!("expected a single report"),
    }
}

fn sp(start: u32, end: u32) -> Span {
    Span::new(start, end)
}

#[test]
fn report_unknown_type() {
    let source = "var x: foo;";
    let (message, labels, notes) = parts(Error::UnknownType(sp(7, 10)).as_parse_error(source));
    assert_eq!(message, "unknown type");
    assert_eq!(labels, vec![(sp(7, 10), "unknown type".to_string())]);
    assert!(notes.is_empty());
}

#[test]
fn report_unexpected_separator_quotes_found_text() {
    let source = "let x = 1";
    let e = Error::Unexpected(sp(4, 5), ExpectedToken::Token(Token::Separator(';')));
    let (message, labels, notes) = parts(e.as_parse_error(source));
    assert_eq!(message, "expected `;`, found \"x\"");
    assert_eq!(labels, vec![(sp(4, 5), "expected `;`".to_string())]);
    assert!(notes.is_empty());
}

#[test]
fn report_unexpected_escapes_found_text() {
    let source = "a\"b";
    let e = Error::Unexpected(sp(0, 3), ExpectedToken::Identifier);
    let (message, _, _) = parts(e.as_parse_error(source));
    assert_eq!(message, "expected identifier, found \"a\\\"b\"");
}

#[test]
fn report_expected_token_wordings() {
    let source = "x";
    let cases: Vec<(ExpectedToken<'static>, &str)> = vec![
        (ExpectedToken::Token(Token::ShiftOperation('<')), "bitshift (`<<`)"),
        (ExpectedToken::Token(Token::AssignmentOperation('>')), "bitshift (`>>=`)"),
        (ExpectedToken::Token(Token::AssignmentOperation('+')), "operation (`+=`)"),
        (ExpectedToken::Token(Token::Word("fn")), "fn"),
        (ExpectedToken::Token(Token::Number(Ok(naga_wgsl::types::Number::I32(3)))), "number"),
        (ExpectedToken::Token(Token::DocComment("hi")), "doc comment ('hi')"),
        (ExpectedToken::Token(Token::End), "end"),
        (ExpectedToken::WorkgroupSizeSeparator, "workgroup size separator (`,`) or a closing parenthesis"),
        (ExpectedToken::AfterIdentListComma, "next argument or end of list (`;`)"),
    ];
    for (expected, text) in cases {
        let (message, labels, _) = parts(Error::Unexpected(sp(0, 1), expected).as_parse_error(source));
        assert_eq!(message, format!("expected {}, found \"x\"", text));
        assert_eq!(labels[0].1, format!("expected {}", text));
    }
}

#[test]
fn report_bad_number() {
    let source = "let a = 99999999999i;";
    let e = Error::BadNumber(sp(8, 20), NumberError::NotRepresentable);
    let (message, labels, _) = parts(e.as_parse_error(source));
    assert_eq!(message, "numeric literal not representable by target type: `99999999999i`");
    assert_eq!(labels[0].1, "numeric literal not representable by target type");
}

#[test]
fn report_slices_multibyte_source() {
    let source = "é = ñ;";
    // "ñ" starts at byte 5 ("é" is 2 bytes).
    let e = Error::ReservedKeyword(sp(5, 7));
    let (message, labels, _) = parts(e.as_parse_error(source));
    assert_eq!(message, "name `ñ` is a reserved keyword");
    assert_eq!(labels, vec![(sp(5, 7), "definition of `ñ`".to_string())]);
}

#[test]
fn report_matrix_scalar_kind() {
    let e = Error::BadMatrixScalarKind(sp(0, 3), Scalar { kind: ScalarKind::Sint, width: 4 });
    let (message, _, _) = parts(e.as_parse_error("i32"));
    assert_eq!(message, "matrix scalar type must be floating-point, but found `i32`");
    let e = Error::BadMatrixScalarKind(sp(0, 3), Scalar { kind: ScalarKind::Sint, width: 2 });
    let (message, _, _) = parts(e.as_parse_error("i16"));
    assert_eq!(
        message,
        "matrix scalar type must be floating-point, but found `{non-wgsl scalar Scalar { kind: Sint, width: 2 }}`"
    );
}

#[test]
fn report_redefinition_labels_both_definitions() {
    let e = Error::Redefinition { previous: sp(4, 5), current: sp(15, 16) };
    let (message, labels, notes) = parts(e.as_parse_error("var a: i32; var a: i32;"));
    assert_eq!(message, "redefinition of identifier");
    assert_eq!(
        labels,
        vec![
            (sp(4, 5), "previous definition".to_string()),
            (sp(15, 16), "redefinition".to_string()),
        ]
    );
    assert!(notes.is_empty());
}

#[test]
fn report_cyclic_declaration() {
    let e = Error::CyclicDeclaration {
        ident: sp(6, 7),
        path: vec![(sp(6, 7), sp(20, 21)), (sp(30, 31), sp(40, 41))],
    };
    let (message, labels, _) = parts(e.as_parse_error(""));
    assert_eq!(message, "cyclic declaration");
    assert_eq!(
        labels,
        vec![
            (sp(6, 7), "cycle starts here".to_string()),
            (sp(6, 7), "cycle".to_string()),
            (sp(30, 31), "cycle".to_string()),
        ]
    );
}

#[test]
fn report_wrong_argument_type_lists_allowed_types() {
    let e = Error::WrongArgumentType {
        function: "max".to_string(),
        call_span: sp(0, 3),
        arg_span: sp(4, 8),
        arg_index: 1,
        arg_ty: "bool".to_string(),
        allowed: vec!["i32".to_string(), "f32".to_string()],
    };
    let (message, labels, notes) = parts(e.as_parse_error("max(1, true)"));
    assert_eq!(message, "wrong type passed as argument #2 to `max`");
    assert_eq!(
        labels,
        vec![(sp(0, 3), String::new()), (sp(4, 8), "argument #2 has type `bool`".to_string())]
    );
    assert_eq!(
        notes,
        vec![
            "`max` accepts the following types for argument #2:".to_string(),
            "allowed type: i32".to_string(),
            "allowed type: f32".to_string(),
        ]
    );
}

#[test]
fn report_too_many_arguments() {
    let e = Error::TooManyArguments {
        function: "abs".to_string(),
        call_span: sp(0, 3),
        arg_span: sp(7, 8),
        max_arguments: 1,
    };
    let (message, labels, notes) = parts(e.as_parse_error(""));
    assert_eq!(message, "too many arguments passed to `abs`");
    assert_eq!(labels[1], (sp(7, 8), "unexpected argument #2".to_string()));
    assert_eq!(notes, vec!["The `abs` function accepts at most 1 argument(s)".to_string()]);
}

#[test]
fn report_wrong_argument_count_uses_range_debug() {
    let e = Error::WrongArgumentCount { span: sp(0, 1), expected: 1..3, found: 5 };
    let (message, _, _) = parts(e.as_parse_error(""));
    assert_eq!(message, "wrong number of arguments: expected 1..3, found 5");
}

#[test]
fn report_invalid_assignment_to_immutable_binding() {
    let source = "let a = 1; a = 2;";
    let e = Error::InvalidAssignment { span: sp(11, 12), ty: InvalidAssignmentType::ImmutableBinding(sp(4, 5)) };
    let (message, labels, notes) = parts(e.as_parse_error(source));
    assert_eq!(message, "invalid left-hand side of assignment");
    assert_eq!(
        labels,
        vec![
            (sp(11, 12), "cannot assign to this expression".to_string()),
            (sp(4, 5), "this is an immutable binding".to_string()),
        ]
    );
    assert_eq!(notes, vec!["consider declaring `a` with `var` instead of `let`".to_string()]);
}

#[test]
fn report_invalid_assignment_to_swizzle() {
    let e = Error::InvalidAssignment { span: sp(0, 3), ty: InvalidAssignmentType::Swizzle };
    let (_, labels, notes) = parts(e.as_parse_error(""));
    assert_eq!(labels.len(), 1);
    assert_eq!(
        notes,
        vec![
            "WGSL does not support assignments to swizzles".to_string(),
            "consider assigning each component individually".to_string(),
        ]
    );
}

#[test]
fn report_enable_extension_not_enabled() {
    let implemented = Error::EnableExtensionNotEnabled {
        kind: EnableExtension::Implemented(ImplementedEnableExtension { name: "F16", ident: "f16" }),
        span: sp(0, 3),
    };
    let (message, labels, notes) = parts(implemented.as_parse_error(""));
    assert_eq!(message, "the `f16` enable extension is not enabled");
    assert_eq!(
        labels[0].1,
        "the `f16` \"Enable Extension\" is needed for this functionality, but it is not currently enabled."
    );
    assert_eq!(
        notes,
        vec!["You can enable this extension by adding `enable f16;` at the top of the shader, before any other items.".to_string()]
    );
    let unimplemented = Error::EnableExtensionNotEnabled {
        kind: EnableExtension::Unimplemented(UnimplementedEnableExtension { name: "Subgroups", ident: "subgroups", tracking_issue_num: 5555 }),
        span: sp(0, 3),
    };
    let (_, _, notes) = parts(unimplemented.as_parse_error(""));
    assert_eq!(
        notes,
        vec!["This \"Enable Extension\" is not yet implemented. Let Naga maintainers know that you ran into this at <https://github.com/gfx-rs/wgpu/issues/5555>, so they can prioritize it!".to_string()]
    );
}

#[test]
fn report_diagnostic_attribute_on_semicolon() {
    let e = Error::DiagnosticAttributeNotSupported {
        on_what: DiagnosticAttributeNotSupportedPosition::SemicolonInModulePosition,
        spans: vec![sp(0, 5), sp(6, 9)],
    };
    let (message, labels, notes) = parts(e.as_parse_error(""));
    assert_eq!(message, "`@diagnostic(…)` attribute(s) on semicolons are not supported");
    assert_eq!(labels, vec![(sp(0, 5), String::new()), (sp(6, 9), String::new())]);
    assert_eq!(notes.len(), 2);
    assert!(notes[1].starts_with("If you meant to declare a diagnostic filter"));
}

#[test]
fn report_diagnostic_attribute_not_yet_implemented() {
    let e = Error::DiagnosticAttributeNotYetImplementedAtParseSite {
        site_name_plural: "structs",
        spans: vec![sp(0, 5), sp(6, 9), sp(10, 12)],
    };
    let (_, labels, _) = parts(e.as_parse_error(""));
    assert_eq!(
        labels,
        vec![
            (sp(0, 5), "can't use this on structs (yet)".to_string()),
            (sp(6, 9), String::new()),
            (sp(10, 12), String::new()),
        ]
    );
}

#[test]
fn report_duplicate_triggering_rule() {
    let e = Error::DiagnosticDuplicateTriggeringRule(ConflictingDiagnosticRuleError {
        triggering_rule_spans: [sp(1, 2), sp(3, 4)],
    });
    let (_, labels, notes) = parts(e.as_parse_error(""));
    assert_eq!(labels, vec![(sp(1, 2), "first rule".to_string()), (sp(3, 4), "second rule".to_string())]);
    assert_eq!(notes[1], "You should delete the rule you don't want.");
}

#[test]
fn report_auto_conversion() {
    let e = Error::AutoConversion(Box::new(AutoConversionError {
        dest_span: sp(0, 1),
        dest_type: "u32".to_string(),
        source_span: sp(2, 3),
        source_type: "f32".to_string(),
    }));
    let (message, labels, _) = parts(e.as_parse_error(""));
    assert_eq!(message, "automatic conversions cannot convert `f32` to `u32`");
    assert_eq!(
        labels,
        vec![
            (sp(0, 1), "a value of type u32 is required here".to_string()),
            (sp(2, 3), "this expression has type f32".to_string()),
        ]
    );
}

#[test]
fn report_numbers_in_messages() {
    let (message, labels, _) = parts(Error::SizeAttributeTooLow(sp(0, 1), 16).as_parse_error(""));
    assert_eq!(message, "struct member size must be at least 16");
    assert_eq!(labels[0].1, "must be at least 16");
    let (message, _, _) = parts(Error::InvalidConstructorComponentType(sp(0, 1), -7).as_parse_error(""));
    assert_eq!(message, "invalid type for constructor component at index [-7]");
    let (_, _, notes) = parts(Error::ExceededLimitForNestedBraces { span: sp(0, 1), limit: 127 }.as_parse_error(""));
    assert_eq!(notes, vec!["nesting limit is currently set to 127".to_string()]);
}

#[test]
fn report_internal_error() {
    let (message, labels, notes) = parts(Error::Internal("bad state").as_parse_error(""));
    assert_eq!(message, "internal WGSL front end error");
    assert!(labels.is_empty());
    assert_eq!(notes, vec!["bad state".to_string()]);
}

#[test]
fn report_every_variant_with_a_span_starts_at_it() {
    let source = "fn main() { let x = y; }";
    let errors: Vec<Error<'static>> = vec![
        Error::UnexpectedComponents(sp(3, 7)),
        Error::UnknownIdent(sp(20, 21), "y"),
        Error::TypeNotInferable(sp(16, 17)),
        Error::RecursiveDeclaration { ident: sp(3, 7), usage: sp(20, 21) },
        Error::SelectUnexpectedArgumentType { arg_span: sp(1, 2), arg_type: "bool".to_string() },
        Error::DiagnosticInvalidSeverity { severity_control_name_span: sp(5, 6) },
        Error::MissingAttribute("location", sp(3, 7)),
    ];
    for e in &errors {
        let span = *e.span().expect("variant has a span");
        let (_, labels, _) = parts(e.as_parse_error(source));
        assert_eq!(labels[0].0, span);
        let report = e.as_parse_error(source);
        assert_eq!(report.location(source), Some(span.location(source)));
    }
}

#[test]
fn span_of_variants_without_one_and_of_redefinitions() {
    assert!(Error::Internal("x").span().is_none());
    assert!(Error::DiagnosticAttributeNotSupported {
        on_what: DiagnosticAttributeNotSupportedPosition::SemicolonInModulePosition,
        spans: vec![],
    }
    .span()
    .is_none());
    assert_eq!(Error::Redefinition { previous: sp(1, 2), current: sp(3, 4) }.span(), Some(&sp(1, 2)));
    assert_eq!(Error::InvalidResolve(naga_wgsl::types::ResolveError { message: "m".to_string(), debug: "M".to_string() }).location("x"), None);
}

#[test]
fn span_of_every_variant_that_carries_one() {
    let cases: Vec<(Error<'static>, Span)> = vec![
        (Error::BadTypeCast { span: sp(1, 3), from_type: "i32".into(), to_type: "f32".into() }, sp(1, 3)),
        (Error::BadTextureSampleType { span: sp(2, 5), scalar: Scalar { kind: ScalarKind::Bool, width: 1 } }, sp(2, 5)),
        (Error::InitializationTypeMismatch { name: sp(4, 5), expected: "i32".into(), got: "u32".into() }, sp(4, 5)),
        (
            Error::InconsistentArgumentType {
                function: "min".into(),
                call_span: sp(1, 4),
                arg_span: sp(5, 6),
                arg_index: 1,
                arg_ty: "f32".into(),
                inconsistent_span: sp(7, 8),
                inconsistent_index: 0,
                inconsistent_ty: "i32".into(),
                allowed: vec![],
            },
            sp(1, 4),
        ),
        (Error::FunctionMustUseUnused(sp(3, 9)), sp(3, 9)),
        (Error::FunctionMustUseReturnsVoid(sp(1, 2), sp(3, 4)), sp(1, 2)),
        (Error::InvalidWorkGroupUniformLoad(sp(6, 8)), sp(6, 8)),
        (Error::NotBool(sp(1, 2)), sp(1, 2)),
        (Error::ConstAssertFailed(sp(2, 3)), sp(2, 3)),
        (Error::DirectiveAfterFirstGlobalDecl { directive_span: sp(9, 12) }, sp(9, 12)),
        (
            Error::AutoConversion(Box::new(AutoConversionError {
                dest_span: sp(1, 2),
                dest_type: "u32".into(),
                source_span: sp(3, 4),
                source_type: "f32".into(),
            })),
            sp(1, 2),
        ),
        (
            Error::DiagnosticDuplicateTriggeringRule(ConflictingDiagnosticRuleError { triggering_rule_spans: [sp(5, 6), sp(1, 2)] }),
            sp(5, 6),
        ),
        (
            Error::DiagnosticAttributeNotYetImplementedAtParseSite { site_name_plural: "structs", spans: vec![sp(3, 4), sp(5, 6)] },
            sp(3, 4),
        ),
    ];
    let source = "abcdefghijklmnop";
    for (e, span) in &cases {
        assert_eq!(e.span(), Some(span));
        let (_, labels, _) = parts(e.as_parse_error(source));
        assert_eq!(labels[0].0, *span);
    }
}

#[test]
fn cloned_errors_report_alike() {
    let e = Error::WrongArgumentCount { span: sp(1, 4), expected: 1..3, found: 5 };
    let c = e.clone();
    assert_eq!(c.to_string(), e.to_string());
    let source = "abcdef";
    let report = e.as_parse_error(source);
    let copy = report.clone();
    assert_eq!(copy.message(), report.message());
    assert_eq!(copy.labels(), report.labels());
}

#[test]
fn reports_never_carry_the_catch_all_message() {
    let source = "fn main() { let x = y; }";
    let errors: Vec<Error<'static>> = vec![
        Error::UnknownType(sp(3, 7)),
        Error::NotReference("the left-hand side", sp(3, 7)),
        Error::Internal("x"),
        Error::CalledEntryPoint(sp(3, 7)),
    ];
    for e in &errors {
        assert_ne!(e.as_parse_error(source).message(), "Unknown error variant");
    }
}
